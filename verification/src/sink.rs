//! The state of the default audio sink as the sound server reports it, and
//! the change detection that decides which reports are passed on.
//!
//! A report is one line such as `Volume: 0.45` or `Volume: 0.45 [MUTED]`.
//! Reading it yields whether the sink is muted and the text of its volume;
//! the volume itself is an IEEE 754 single-precision number, which this
//! library carries as its bit pattern.

use vstd::prelude::*;
use vstd::std_specs::cmp::PartialEqSpecImpl;

use crate::text::{
    after_first, after_first_exec, chars_of, contains, contains_exec, remove_all,
    remove_all_exec, string_of, trim, trim_bounds, trimmed,
};

verus! {

/// The text that precedes the volume in a report.
pub open spec fn volume_marker() -> Seq<char> {
    seq!['V', 'o', 'l', 'u', 'm', 'e', ':', ' ']
}

/// The text that marks a muted sink in a report.
pub open spec fn muted_marker() -> Seq<char> {
    seq!['[', 'M', 'U', 'T', 'E', 'D', ']']
}

/// The text of an event line about a sink.
pub open spec fn sink_event_marker() -> Seq<char> {
    seq!['o', 'n', ' ', 's', 'i', 'n', 'k']
}

/// The text of an event line about the server.
pub open spec fn server_event_marker() -> Seq<char> {
    seq!['o', 'n', ' ', 's', 'e', 'r', 'v', 'e', 'r']
}

fn volume_marker_chars() -> (v: Vec<char>)
    ensures
        v@ == volume_marker(),
{
    vec!['V', 'o', 'l', 'u', 'm', 'e', ':', ' ']
}

fn muted_marker_chars() -> (v: Vec<char>)
    ensures
        v@ == muted_marker(),
{
    vec!['[', 'M', 'U', 'T', 'E', 'D', ']']
}

fn sink_event_marker_chars() -> (v: Vec<char>)
    ensures
        v@ == sink_event_marker(),
{
    vec!['o', 'n', ' ', 's', 'i', 'n', 'k']
}

fn server_event_marker_chars() -> (v: Vec<char>)
    ensures
        v@ == server_event_marker(),
{
    vec!['o', 'n', ' ', 's', 'e', 'r', 'v', 'e', 'r']
}

/// The text of the volume in report `s`: what follows the first volume
/// marker, with every muted marker removed and surrounding whitespace
/// trimmed. `None` when `s` holds no volume marker.
pub open spec fn report_volume_text(s: Seq<char>) -> Option<Seq<char>> {
    match after_first(s, volume_marker()) {
        Some(rest) => Some(trim(remove_all(rest, muted_marker()))),
        None => None,
    }
}

/// Whether report `s` says the sink is muted.
pub open spec fn report_muted(s: Seq<char>) -> bool {
    contains(s, muted_marker())
}

/// What a report says, before its volume text is read as a number.
pub struct SinkReport {
    pub muted: bool,
    pub volume_text: String,
}

/// Why no sink state could be had.
pub enum SinkError {
    /// The report (the text given) holds no readable volume.
    Unparsable(String),
    /// The command that prints the report did not succeed.
    CommandFailed,
}

/// The state of the default sink: its volume, as the bit pattern of an
/// IEEE 754 single-precision number, and whether it is muted.
#[derive(Clone, Copy, Debug)]
pub struct CurrentSink {
    pub volume_bits: u32,
    pub muted: bool,
}

/// The single-precision bit pattern `b` is a NaN.
pub open spec fn binary32_is_nan(b: u32) -> bool {
    (b & 0x7f80_0000u32) == 0x7f80_0000u32 && (b & 0x007f_ffffu32) != 0
}

/// The single-precision bit pattern `b` is a zero of either sign.
pub open spec fn binary32_is_zero(b: u32) -> bool {
    (b & 0x7fff_ffffu32) == 0
}

/// IEEE 754 equality of two single-precision numbers given by their bit
/// patterns: no NaN equals anything, the two zeros are equal, and other
/// numbers are equal when their patterns are.
pub open spec fn binary32_eq(a: u32, b: u32) -> bool {
    &&& !binary32_is_nan(a)
    &&& !binary32_is_nan(b)
    &&& (a == b || (binary32_is_zero(a) && binary32_is_zero(b)))
}

/// Two sink states are equal: equal volumes and equal mute flags.
pub open spec fn same_sink(a: CurrentSink, b: CurrentSink) -> bool {
    binary32_eq(a.volume_bits, b.volume_bits) && a.muted == b.muted
}

fn binary32_eq_exec(a: u32, b: u32) -> (r: bool)
    ensures
        r == binary32_eq(a, b),
{
    let a_nan = (a & 0x7f80_0000u32) == 0x7f80_0000u32 && (a & 0x007f_ffffu32) != 0;
    let b_nan = (b & 0x7f80_0000u32) == 0x7f80_0000u32 && (b & 0x007f_ffffu32) != 0;
    let zeros = (a & 0x7fff_ffffu32) == 0 && (b & 0x7fff_ffffu32) == 0;
    !a_nan && !b_nan && (a == b || zeros)
}

impl PartialEq for CurrentSink {
    fn eq(&self, other: &Self) -> (r: bool) {
        binary32_eq_exec(self.volume_bits, other.volume_bits) && self.muted == other.muted
    }
}

impl PartialEqSpecImpl for CurrentSink {
    open spec fn obeys_eq_spec() -> bool {
        true
    }

    open spec fn eq_spec(&self, other: &CurrentSink) -> bool {
        same_sink(*self, *other)
    }
}

impl CurrentSink {
    /// Reads report `s`: the sink is muted when `s` holds the muted marker
    /// anywhere; the volume text is what follows the first volume marker,
    /// with every muted marker removed and whitespace trimmed. Fails, naming
    /// `s`, exactly when `s` holds no volume marker.
    pub fn read_report(s: &str) -> (r: Result<SinkReport, SinkError>)
        ensures
            r matches Ok(rep) ==> {
                &&& report_volume_text(s@) == Some(rep.volume_text@)
                &&& rep.muted == report_muted(s@)
            },
            r matches Err(e) ==> {
                &&& report_volume_text(s@) is None
                &&& e matches SinkError::Unparsable(t) && t@ == s@
            },
            r is Ok <==> report_volume_text(s@) is Some,
    {
        let v = chars_of(s);
        let muted = contains_exec(&v, &muted_marker_chars());
        match after_first_exec(&v, &volume_marker_chars()) {
            Some(k) => {
                let rest = remove_all_exec(&v, k, &muted_marker_chars());
                let (lo, hi) = trim_bounds(&rest);
                let volume_text = string_of(&rest, lo, hi);
                Ok(SinkReport { muted, volume_text })
            },
            None => Err(SinkError::Unparsable(string_of(&v, 0, v.len()))),
        }
    }

    /// Reads the output of the command that prints the report: when the
    /// command failed, `CommandFailed`; otherwise the report is the output
    /// with surrounding whitespace trimmed, read as `read_report` does.
    pub fn read_volume_output(success: bool, stdout: &str) -> (r: Result<SinkReport, SinkError>)
        ensures
            !success ==> r matches Err(SinkError::CommandFailed),
            success ==> (r is Ok <==> report_volume_text(trim(stdout@)) is Some),
            success ==> (r matches Ok(rep) ==> {
                &&& report_volume_text(trim(stdout@)) == Some(rep.volume_text@)
                &&& rep.muted == report_muted(trim(stdout@))
            }),
            success ==> (r matches Err(e) ==> e matches SinkError::Unparsable(t) && t@ == trim(
                stdout@,
            )),
    {
        if !success {
            return Err(SinkError::CommandFailed);
        }
        let line = trimmed(stdout);
        CurrentSink::read_report(line.as_str())
    }
}

/// Whether event line `line` concerns a sink or the server, so that the
/// sink state may have changed.
pub open spec fn is_sink_event(line: Seq<char>) -> bool {
    contains(line, sink_event_marker()) || contains(line, server_event_marker())
}

/// Whether a newly read state `sink` is to be passed on, given the last
/// state passed on: when none was, or when the two differ.
pub open spec fn is_change(last: Option<CurrentSink>, sink: CurrentSink) -> bool {
    match last {
        None => true,
        Some(l) => !same_sink(sink, l),
    }
}

/// Follows the stream of sink events and passes on a sink state only when
/// it differs from the last one passed on.
pub struct VolumeWatcher {
    last: Option<CurrentSink>,
}

impl View for VolumeWatcher {
    type V = Option<CurrentSink>;

    /// The last state passed on, if any.
    closed spec fn view(&self) -> Option<CurrentSink> {
        self.last
    }
}

impl VolumeWatcher {
    /// A watcher that has passed nothing on yet.
    pub fn new() -> (w: VolumeWatcher)
        ensures
            w@ is None,
    {
        VolumeWatcher { last: None }
    }

    /// Whether event line `line` calls for reading the sink state again.
    pub fn wants_reading(line: &str) -> (b: bool)
        ensures
            b == is_sink_event(line@),
    {
        let v = chars_of(line);
        contains_exec(&v, &sink_event_marker_chars()) || contains_exec(
            &v,
            &server_event_marker_chars(),
        )
    }

    /// Offers a newly read state: returns it, and remembers it, exactly when
    /// it differs from the last state passed on; otherwise returns `None`
    /// and the watcher is unchanged.
    pub fn offer(&mut self, sink: CurrentSink) -> (r: Option<CurrentSink>)
        ensures
            is_change(old(self)@, sink) ==> r == Some(sink) && final(self)@ == Some(sink),
            !is_change(old(self)@, sink) ==> r is None && final(self)@ == old(self)@,
    {
        let changed = match self.last {
            None => true,
            Some(l) => !(binary32_eq_exec(sink.volume_bits, l.volume_bits) && sink.muted
                == l.muted),
        };
        if changed {
            self.last = Some(sink);
            Some(sink)
        } else {
            None
        }
    }

    /// The last state passed on, if any.
    pub fn last(&self) -> (r: Option<CurrentSink>)
        ensures
            r == self@,
    {
        self.last
    }
}

/// A state just passed on is not passed on again when it is read once more,
/// unless its volume is a NaN (a NaN volume equals nothing, itself included).
pub proof fn lemma_repeat_not_passed_on(sink: CurrentSink)
    requires
        !binary32_is_nan(sink.volume_bits),
    ensures
        !is_change(Some(sink), sink),
{
}

/// After a state is passed on, a later state is passed on exactly when it
/// differs from that one.
pub proof fn lemma_change_relative_to_last(last: CurrentSink, sink: CurrentSink)
    ensures
        is_change(Some(last), sink) <==> !same_sink(sink, last),
{
}

/// A state whose volume differs from the last one passed on is passed on,
/// muted or not: volumes whose bit patterns differ are different volumes,
/// unless both are zeros (of either sign).
pub proof fn lemma_volume_change_passed_on(last: CurrentSink, sink: CurrentSink)
    requires
        sink.volume_bits != last.volume_bits,
        (sink.volume_bits & 0x7fff_ffffu32) != 0 || (last.volume_bits & 0x7fff_ffffu32) != 0,
    ensures
        is_change(Some(last), sink),
{
}

/// A state whose mute flag differs from the last one passed on is passed
/// on, whatever the volumes.
pub proof fn lemma_mute_change_passed_on(last: CurrentSink, sink: CurrentSink)
    requires
        sink.muted != last.muted,
    ensures
        is_change(Some(last), sink),
{
}

/// A state whose volume is a NaN is always passed on.
pub proof fn lemma_nan_volume_passed_on(last: CurrentSink, sink: CurrentSink)
    requires
        (sink.volume_bits & 0x7f80_0000u32) == 0x7f80_0000u32,
        (sink.volume_bits & 0x007f_ffffu32) != 0,
    ensures
        is_change(Some(last), sink),
{
}

/// A state with the same mute flag and the same volume as the last one
/// passed on (the same bit pattern, not a NaN, or two zeros) is not passed on.
pub proof fn lemma_same_state_not_passed_on(last: CurrentSink, sink: CurrentSink)
    requires
        sink.muted == last.muted,
        (sink.volume_bits == last.volume_bits && ((sink.volume_bits & 0x7f80_0000u32)
            != 0x7f80_0000u32 || (sink.volume_bits & 0x007f_ffffu32) == 0)) || ((
        sink.volume_bits & 0x7fff_ffffu32) == 0 && (last.volume_bits & 0x7fff_ffffu32) == 0),
    ensures
        !is_change(Some(last), sink),
{
    let a = sink.volume_bits;
    let b = last.volume_bits;
    assert((a & 0x7fff_ffffu32) == 0 ==> (a & 0x7f80_0000u32) != 0x7f80_0000u32) by (bit_vector);
    assert((b & 0x7fff_ffffu32) == 0 ==> (b & 0x7f80_0000u32) != 0x7f80_0000u32) by (bit_vector);
}

/// The first state is always passed on.
pub proof fn lemma_first_state_passed_on(sink: CurrentSink)
    ensures
        is_change(None, sink),
{
}

/// Equality of sink states is symmetric.
pub proof fn lemma_same_sink_symmetric(a: CurrentSink, b: CurrentSink)
    ensures
        same_sink(a, b) <==> same_sink(b, a),
{
}

} // verus!
