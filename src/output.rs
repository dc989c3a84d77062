//! The outcome of a successful handler run, and the builder that gathers it.

use vstd::prelude::*;
use core::marker::PhantomData;
use crate::channel::IbcEvent;
use crate::list::{List, string_views};

verus! {

/// A result together with the trace lines and events produced on the way to it.
pub struct HandlerOutput<T> {
    pub result: T,
    pub log: List<String>,
    pub events: List<IbcEvent>,
}

impl<T> HandlerOutput<T> {
    /// An empty builder.
    pub fn builder() -> (r: HandlerOutputBuilder<T>)
        ensures
            r.log@.len() == 0,
            r.events@.len() == 0,
    {
        HandlerOutputBuilder::new()
    }
}

/// Gathers trace lines and events until the result is known.
pub struct HandlerOutputBuilder<T> {
    pub log: List<String>,
    pub events: List<IbcEvent>,
    pub marker: PhantomData<T>,
}

impl<T> HandlerOutputBuilder<T> {
    /// A builder with no trace line and no event.
    pub fn new() -> (r: Self)
        ensures
            r.log@.len() == 0,
            r.events@.len() == 0,
    {
        Self { log: List::Nil, events: List::Nil, marker: PhantomData }
    }

    /// The same builder with `line` appended to the trace.
    pub fn log(self, line: &str) -> (r: Self)
        ensures
            string_views(r.log@) == string_views(self.log@).push(line@),
            r.events == self.events,
    {
        let line = String::from_str(line);
        let log = self.log.push(line);
        proof {
            assert(string_views(log@) =~= string_views(self.log@).push(line@));
        }
        HandlerOutputBuilder { log, events: self.events, marker: self.marker }
    }

    /// The same builder with `event` appended to the events.
    pub fn emit(self, event: IbcEvent) -> (r: Self)
        ensures
            r.events@ == self.events@.push(event),
            r.log == self.log,
    {
        HandlerOutputBuilder { log: self.log, events: self.events.push(event), marker: self.marker }
    }

    /// The gathered trace and events, with `result`.
    pub fn with_result(self, result: T) -> (r: HandlerOutput<T>)
        ensures
            r.result == result,
            r.log == self.log,
            r.events == self.events,
    {
        HandlerOutput { result, log: self.log, events: self.events }
    }
}

} // verus!
