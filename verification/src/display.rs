//! What the volume overlay shows for a sink state.

use vstd::prelude::*;

use crate::config::Config;
use crate::sink::CurrentSink;
use crate::text::{
    char_string, decimal, decimal_chars, lemma_decimal_denotes, push_char, string_of, value_of,
};

verus! {

/// What the overlay shows besides the volume bar: the label's text, and
/// whether the window wears the muted style.
pub struct OverlayView {
    pub label: String,
    pub muted_style: bool,
}

/// The label that shows a volume of `percent` per cent: its numeral and `%`.
pub open spec fn percent_label(percent: u32) -> Seq<char> {
    decimal(percent as nat) + seq!['%']
}

/// The percentage label is the base-ten numeral of the percentage, with no
/// leading zero, followed by `%`: read back, its digits give `percent`.
pub proof fn lemma_percent_label_denotes(percent: u32)
    ensures
        percent_label(percent).last() == '%',
        value_of(percent_label(percent).drop_last()) == percent,
        percent_label(percent)[0] == '0' <==> percent == 0,
{
    lemma_decimal_denotes(percent as nat);
    assert(percent_label(percent).drop_last() =~= decimal(percent as nat));
}

/// The overlay for `sink` under `config`. A muted sink shows the configured
/// muted text, in the muted style. Otherwise, in the normal style, the
/// label is the volume as a percentage (`percent`, the volume times a
/// hundred) when the configuration asks for percentages, and else `icon`,
/// the icon for the volume.
pub fn overlay_for(config: &Config, sink: &CurrentSink, icon: char, percent: u32) -> (v:
    OverlayView)
    ensures
        v.muted_style == sink.muted,
        sink.muted ==> v.label@ == config@.muted_text,
        !sink.muted && config@.use_percent ==> v.label@ == percent_label(percent),
        !sink.muted && !config@.use_percent ==> v.label@ == seq![icon],
{
    if sink.muted {
        OverlayView { label: config.muted_label().clone(), muted_style: true }
    } else if config.shows_percent() {
        let digits = decimal_chars(percent);
        let mut label = string_of(&digits, 0, digits.len());
        push_char(&mut label, '%');
        assert(digits@.subrange(0, digits@.len() as int) =~= digits@);
        OverlayView { label, muted_style: false }
    } else {
        OverlayView { label: char_string(icon), muted_style: false }
    }
}

} // verus!
