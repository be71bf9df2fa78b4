//! The stream adapter: the per-connection bridge from a hub cursor to the
//! wire. Each receive outcome maps to exactly one action — emit a frame
//! carrying a delivery identifier and the payload, resynchronize silently
//! after a lag, wait for more, or end the stream at shutdown.
//!
//! The delivery identifier is the wall-clock time in milliseconds, rendered
//! in decimal, clamped so that identifiers never decrease over the life of
//! one stream even if the clock steps backwards.

use vstd::prelude::*;

use crate::hub::Recv;

verus! {

use vstd::string::StringExecFns;

/// The decimal digit character for `d`.
pub open spec fn digit_char(d: int) -> char {
    if d == 0 {
        '0'
    } else if d == 1 {
        '1'
    } else if d == 2 {
        '2'
    } else if d == 3 {
        '3'
    } else if d == 4 {
        '4'
    } else if d == 5 {
        '5'
    } else if d == 6 {
        '6'
    } else if d == 7 {
        '7'
    } else if d == 8 {
        '8'
    } else {
        '9'
    }
}

/// The usual decimal rendering of `n`: no sign, no leading zero except for
/// zero itself.
pub open spec fn spec_decimal(n: int) -> Seq<char>
    decreases n,
{
    if n < 10 {
        seq![digit_char(n)]
    } else {
        spec_decimal(n / 10).push(digit_char(n % 10))
    }
}

fn digit_char_exec(d: u64) -> (c: char)
    requires
        d < 10,
    ensures
        c == digit_char(d as int),
{
    match d {
        0 => '0',
        1 => '1',
        2 => '2',
        3 => '3',
        4 => '4',
        5 => '5',
        6 => '6',
        7 => '7',
        8 => '8',
        _ => '9',
    }
}

fn push_decimal(n: u64, v: &mut Vec<char>)
    ensures
        final(v)@ == old(v)@ + spec_decimal(n as int),
    decreases n,
{
    if n >= 10 {
        push_decimal(n / 10, v);
    }
    v.push(digit_char_exec(n % 10));
    proof {
        assert(final(v)@ =~= old(v)@ + spec_decimal(n as int));
    }
}

/// Render `n` in decimal as characters.
pub fn decimal_chars(n: u64) -> (v: Vec<char>)
    ensures
        v@ == spec_decimal(n as int),
{
    let mut v: Vec<char> = Vec::new();
    push_decimal(n, &mut v);
    proof {
        assert(v@ =~= spec_decimal(n as int));
    }
    v
}

/// Relies on `String`'s `FromIterator<char>` implementation: collecting an
/// in-order iterator of characters yields the string of exactly those
/// characters in that order.
#[verifier::external_body]
fn chars_to_string(v: &Vec<char>) -> (s: String)
    ensures
        s@ == v@,
{
    v.iter().collect()
}

/// Render `n` in decimal as a `String` — the shape of a delivery identifier.
pub fn decimal_string(n: u64) -> (s: String)
    ensures
        s@ == spec_decimal(n as int),
{
    let v = decimal_chars(n);
    chars_to_string(&v)
}

/// One wire frame of the push stream: a delivery identifier and the event's
/// payload as the data field.
pub struct WireFrame {
    pub id: String,
    pub data: String,
}

/// What the stream should do after one receive.
pub enum StepAction {
    /// Send this frame to the client.
    Emit(WireFrame),
    /// The cursor lagged: skip forward silently; the count is for the
    /// operational log only, the client is never told.
    Resync(u64),
    /// Nothing unread yet: suspend until the hub has more.
    Wait,
    /// The hub shut down: end the stream cleanly.
    End,
}

/// Per-connection adapter state: the last delivery identifier handed out,
/// kept so identifiers never decrease within one stream.
pub struct Adapter {
    pub last_id: u64,
}

impl Adapter {
    pub fn new() -> (a: Adapter)
        ensures
            a.last_id == 0,
    {
        Adapter { last_id: 0 }
    }

    /// Map one receive outcome to the action on the wire: an event becomes a
    /// frame stamped with a never-decreasing delivery identifier, a lag is
    /// swallowed (logged, never sent), an idle hub means wait, a closed hub
    /// ends the stream.
    pub fn step(&mut self, r: Recv, now_millis: u64) -> (a: StepAction)
        ensures
            r is Event ==> final(self).last_id == vstd::math::max(
                old(self).last_id as int,
                now_millis as int,
            ),
            !(r is Event) ==> final(self).last_id == old(self).last_id,
            final(self).last_id >= old(self).last_id,
            r matches Recv::Event(p) ==> (a matches StepAction::Emit(f)
                && f.id@ == spec_decimal(final(self).last_id as int)
                && f.data@ == p@),
            r matches Recv::Lagged(k) ==> (a matches StepAction::Resync(j) && j == k),
            r is Pending ==> a is Wait,
            r is Closed ==> a is End,
    {
        match r {
            Recv::Event(p) => {
                if now_millis > self.last_id {
                    self.last_id = now_millis;
                }
                let id = decimal_string(self.last_id);
                StepAction::Emit(WireFrame { id, data: p })
            },
            Recv::Lagged(k) => StepAction::Resync(k),
            Recv::Pending => StepAction::Wait,
            Recv::Closed => StepAction::End,
        }
    }
}

/// The literal payload of a heartbeat frame.
pub fn heartbeat_marker() -> (s: String)
    ensures
        s@ == "ping"@,
{
    String::from_str("ping")
}

} // verus!
