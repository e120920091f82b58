//! The time of day that a clock shows.

use vstd::prelude::*;
use chrono::Timelike;

verus! {

/// An hour, a minute and a second of a 24-hour day. Only times that exist
/// can be built: the hour is below 24, minute and second are below 60.
#[derive(Clone, Copy, Debug)]
pub struct Timestamp {
    hour: u8,
    minute: u8,
    second: u8,
}

impl Timestamp {
    /// The hour is below 24, minute and second are below 60. This holds of
    /// every `Timestamp` that a program can hold.
    #[verifier::type_invariant]
    pub closed spec fn wf(self) -> bool {
        self.hour < 24 && self.minute < 60 && self.second < 60
    }

    pub closed spec fn spec_hour(&self) -> u8 {
        self.hour
    }

    pub closed spec fn spec_minute(&self) -> u8 {
        self.minute
    }

    pub closed spec fn spec_second(&self) -> u8 {
        self.second
    }

    /// What `wf` means for the three fields.
    pub proof fn lemma_wf(self)
        ensures
            self.wf() <==> self.spec_hour() < 24 && self.spec_minute() < 60 && self.spec_second()
                < 60,
    {
    }

    /// The time `hour:minute:second`, if there is such a time.
    pub fn new(hour: u8, minute: u8, second: u8) -> (time: Option<Timestamp>)
        ensures
            time is Some <==> hour < 24 && minute < 60 && second < 60,
            time matches Some(t) ==> t.wf() && t.spec_hour() == hour && t.spec_minute() == minute
                && t.spec_second() == second,
    {
        if hour < 24 && minute < 60 && second < 60 {
            Some(Timestamp { hour, minute, second })
        } else {
            None
        }
    }

    /// The hour, from 0 to 23.
    #[verifier::when_used_as_spec(spec_hour)]
    pub fn hour(&self) -> (hour: u8)
        ensures
            hour == self.spec_hour(),
            hour < 24,
    {
        proof {
            use_type_invariant(self);
        }
        self.hour
    }

    /// The minute, from 0 to 59.
    #[verifier::when_used_as_spec(spec_minute)]
    pub fn minute(&self) -> (minute: u8)
        ensures
            minute == self.spec_minute(),
            minute < 60,
    {
        proof {
            use_type_invariant(self);
        }
        self.minute
    }

    /// The second, from 0 to 59.
    #[verifier::when_used_as_spec(spec_second)]
    pub fn second(&self) -> (second: u8)
        ensures
            second == self.spec_second(),
            second < 60,
    {
        proof {
            use_type_invariant(self);
        }
        self.second
    }

    /// The local time of day at the moment of the call.
    pub fn now() -> (time: Timestamp)
        ensures
            time.wf(),
    {
        let (hour, minute, second) = local_time();
        match Timestamp::from_hms(hour, minute, second) {
            Some(time) => time,
            None => unreached(),
        }
    }

    /// The time `hour:minute:second` as a system clock reports it, in
    /// numbers of full width, if there is such a time.
    pub fn from_hms(hour: u32, minute: u32, second: u32) -> (time: Option<Timestamp>)
        ensures
            time is Some <==> hour < 24 && minute < 60 && second < 60,
            time matches Some(t) ==> t.wf() && t.spec_hour() == hour && t.spec_minute() == minute
                && t.spec_second() == second,
    {
        if hour < 24 && minute < 60 && second < 60 {
            Some(Timestamp { hour: hour as u8, minute: minute as u8, second: second as u8 })
        } else {
            None
        }
    }
}

/// `chrono::Local::now`, read through `Timelike`: the hour, minute and second
/// of the local time at the moment of the call. Nothing is claimed of them but
/// the ranges that `Timelike` documents. On a machine whose clock stands
/// before 1970 `chrono` does not return from the call.
#[verifier::external_body]
fn local_time() -> (hms: (u32, u32, u32))
    ensures
        hms.0 < 24,
        hms.1 < 60,
        hms.2 < 60,
{
    let now = chrono::Local::now();
    (now.hour(), now.minute(), now.second())
}

} // verus!
