use vstd::prelude::*;
use vstd::math::abs;
use vstd::string::StringExecFns;
use crate::info::{
    cent_milli_spec, get_pitch_info, nearest_semitone_spec, note_index_spec, note_literal_spec,
    octave_spec,
};

verus! {

/// A 24-bit color.
#[derive(Debug, Clone, Copy, PartialEq, Eq, Structural)]
pub struct Rgb {
    pub r: u8,
    pub g: u8,
    pub b: u8,
}

/// A color channel attenuated by how far the pitch is from the note: full at
/// zero deviation, fading linearly to zero at half a semitone, rounded to the
/// nearest integer.
pub open spec fn attenuated_channel_spec(cent_milli: int) -> int {
    (255 * (1000 - 2 * abs(cent_milli)) + 500) / 1000
}

/// Red is attenuated when sharp, green when flat, blue always: white at zero
/// deviation, tinting red when flat and green when sharp.
pub open spec fn color_spec(cent_milli: int) -> Rgb {
    Rgb {
        r: (if cent_milli > 0 {
            attenuated_channel_spec(cent_milli)
        } else {
            255
        }) as u8,
        g: (if cent_milli < 0 {
            attenuated_channel_spec(cent_milli)
        } else {
            255
        }) as u8,
        b: attenuated_channel_spec(cent_milli) as u8,
    }
}

/// The deviation color for a pitch `cent_milli` thousandths of a semitone
/// from its note.
pub fn get_color_from_cent(cent_milli: i64) -> (color: Rgb)
    requires
        -500 <= cent_milli <= 500,
    ensures
        color == color_spec(cent_milli as int),
        0 <= attenuated_channel_spec(cent_milli as int) <= 255,
{
    let magnitude: i64 = if cent_milli >= 0 {
        cent_milli
    } else {
        -cent_milli
    };
    let attenuated: i64 = (255 * (1000 - 2 * magnitude) + 500) / 1000;
    let attenuated = attenuated as u8;
    if cent_milli > 0 {
        Rgb { r: attenuated, g: 255, b: attenuated }
    } else if cent_milli < 0 {
        Rgb { r: 255, g: attenuated, b: attenuated }
    } else {
        Rgb { r: 255, g: 255, b: attenuated }
    }
}

/// The color gradient is symmetric between flat and sharp: deviations of
/// equal magnitude swap the red and green channels and share the blue one.
/// At zero deviation the color is pure white.
pub proof fn lemma_color_symmetric(cent_milli: int)
    requires
        0 <= cent_milli <= 500,
    ensures
        color_spec(cent_milli).r == color_spec(-cent_milli).g,
        color_spec(cent_milli).g == color_spec(-cent_milli).r,
        color_spec(cent_milli).b == color_spec(-cent_milli).b,
        color_spec(0) == (Rgb { r: 255, g: 255, b: 255 }),
{
    assert((255 * 1000 + 500) / 1000 == 255);
}

/// The gradient is monotone: as the deviation grows in magnitude, the
/// attenuated channels only darken, reaching zero at half a semitone.
pub proof fn lemma_color_monotone(cent_a: int, cent_b: int)
    requires
        0 <= abs(cent_a) <= abs(cent_b) <= 500,
    ensures
        attenuated_channel_spec(cent_b) <= attenuated_channel_spec(cent_a),
        attenuated_channel_spec(500) == 0,
        attenuated_channel_spec(-500) == 0,
{
    assert((255 * (1000 - 2 * 500) + 500) / 1000 == 0);
}

/// The directional tuning hint: "↓" exactly when the pitch is more than a
/// tenth of a semitone sharp, "↑" exactly when more than a tenth flat, and
/// empty on [-0.1, 0.1].
pub open spec fn hint_spec(cent_milli: int) -> Seq<char> {
    if cent_milli > 100 {
        "↓"@
    } else if cent_milli < -100 {
        "↑"@
    } else {
        ""@
    }
}

/// The directional tuning hint: tune down when more than a tenth of a
/// semitone sharp, up when more than a tenth flat, none when in tune.
pub fn get_pitch_hint(cent_milli: i64) -> (hint: &'static str)
    ensures
        hint@ == hint_spec(cent_milli as int),
        cent_milli > 100 ==> hint@ == "↓"@,
        cent_milli < -100 ==> hint@ == "↑"@,
        -100 <= cent_milli <= 100 ==> hint@ == ""@,
{
    if cent_milli > 100 {
        "↓"
    } else if cent_milli < -100 {
        "↑"
    } else {
        ""
    }
}

/// The character for the decimal digit `d`.
pub open spec fn digit_char(d: int) -> char {
    if d == 0 {
        '0'
    } else if d == 1 {
        '1'
    } else if d == 2 {
        '2'
    } else if d == 3 {
        '3'
    } else if d == 4 {
        '4'
    } else if d == 5 {
        '5'
    } else if d == 6 {
        '6'
    } else if d == 7 {
        '7'
    } else if d == 8 {
        '8'
    } else {
        '9'
    }
}

/// The decimal numeral of `n`, most significant digit first, with no sign
/// and no leading zeros (zero itself is "0").
pub open spec fn dec_str(n: nat) -> Seq<char>
    decreases n,
{
    if n < 10 {
        seq![digit_char(n as int)]
    } else {
        dec_str(n / 10) + seq![digit_char((n % 10) as int)]
    }
}

/// The decimal digit `d` as a string slice.
fn digit_str(d: u64) -> (s: &'static str)
    requires
        d < 10,
    ensures
        s@ == seq![digit_char(d as int)],
{
    let s = if d == 0 {
        "0"
    } else if d == 1 {
        "1"
    } else if d == 2 {
        "2"
    } else if d == 3 {
        "3"
    } else if d == 4 {
        "4"
    } else if d == 5 {
        "5"
    } else if d == 6 {
        "6"
    } else if d == 7 {
        "7"
    } else if d == 8 {
        "8"
    } else {
        "9"
    };
    proof {
        reveal_strlit("0");
        reveal_strlit("1");
        reveal_strlit("2");
        reveal_strlit("3");
        reveal_strlit("4");
        reveal_strlit("5");
        reveal_strlit("6");
        reveal_strlit("7");
        reveal_strlit("8");
        reveal_strlit("9");
    }
    s
}

/// Appends the decimal numeral of `n` to `text`.
fn push_dec(text: &mut String, n: u64)
    ensures
        final(text)@ == old(text)@ + dec_str(n as nat),
    decreases n,
{
    if n < 10 {
        text.append(digit_str(n));
    } else {
        push_dec(text, n / 10);
        text.append(digit_str(n % 10));
    }
}

/// One run of display text: its characters, an optional foreground color,
/// and whether it is shown on the in-tune highlight background.
#[derive(Debug, Clone)]
pub struct TextSpan {
    pub text: String,
    pub color: Option<Rgb>,
    pub highlighted: bool,
}

/// A span of unstyled text.
pub open spec fn is_plain_span(span: TextSpan, text: Seq<char>) -> bool {
    &&& span.text@ == text
    &&& span.color is None
    &&& !span.highlighted
}

/// The numeric frequency line: the frequency is taken in tenths of a hertz
/// and shown with one decimal place.
pub open spec fn pitch_line_spec(freq_dhz: nat) -> Seq<char> {
    "Pitch: "@ + dec_str(freq_dhz / 10) + "."@ + seq![digit_char((freq_dhz % 10) as int)]
        + " hertz\n"@
}

/// The deviation shown as a percentage-like cents figure with one decimal
/// place and an explicit sign when sharp.
pub open spec fn cents_text_spec(cent_milli: int) -> Seq<char> {
    if cent_milli >= 0 {
        "+"@ + dec_str((cent_milli / 10) as nat) + "."@ + seq![digit_char(cent_milli % 10)]
    } else {
        "-"@ + dec_str((abs(cent_milli) / 10) as nat) + "."@ + seq![
            digit_char((abs(cent_milli) % 10) as int),
        ]
    }
}

/// The note name with its octave number.
pub open spec fn note_text_spec(semitone: int) -> Seq<char> {
    note_literal_spec(note_index_spec(semitone)) + dec_str(octave_spec(semitone) as nat)
}

/// The full display layout for a pitch: the frequency line, a blank block,
/// the cents figure above the note when sharp or below it when flat (colored
/// by the deviation gradient), and the note with its directional hint,
/// highlighted when within a tenth of a semitone of the note.
pub open spec fn display_spans_ok(spans: Seq<TextSpan>, freq_dhz: nat, semitones_milli: int) -> bool {
    let semitone = nearest_semitone_spec(semitones_milli);
    let cent = cent_milli_spec(semitones_milli);
    let note_line = note_text_spec(semitone);
    let tail = " "@ + hint_spec(cent) + "\n\n"@;
    let rgb = color_spec(cent);
    if cent > 0 {
        &&& spans.len() == 5
        &&& is_plain_span(spans[0], pitch_line_spec(freq_dhz) + "\n\n"@)
        &&& spans[1].text@ == cents_text_spec(cent)
        &&& spans[1].color == Some(rgb)
        &&& !spans[1].highlighted
        &&& is_plain_span(spans[2], "\n\n"@)
        &&& spans[3].text@ == note_line
        &&& spans[3].color is None
        &&& spans[3].highlighted == (abs(cent) < 100)
        &&& is_plain_span(spans[4], tail)
    } else if cent < 0 {
        &&& spans.len() == 5
        &&& is_plain_span(spans[0], pitch_line_spec(freq_dhz) + "\n\n"@ + "\n\n"@)
        &&& spans[1].text@ == note_line
        &&& spans[1].color is None
        &&& spans[1].highlighted == (abs(cent) < 100)
        &&& is_plain_span(spans[2], tail)
        &&& spans[3].text@ == cents_text_spec(cent)
        &&& spans[3].color == Some(rgb)
        &&& !spans[3].highlighted
        &&& is_plain_span(spans[4], "\n"@)
    } else {
        &&& spans.len() == 3
        &&& is_plain_span(spans[0], pitch_line_spec(freq_dhz) + "\n\n"@ + "\n\n"@)
        &&& spans[1].text@ == note_line
        &&& spans[1].color is None
        &&& spans[1].highlighted
        &&& is_plain_span(spans[2], tail)
    }
}

/// The tuning display. It owns the span buffer, which is rebuilt on every
/// render and reused across renders so that rendering does not have to
/// allocate a fresh buffer each cycle.
pub struct Ui {
    text_spans: Vec<TextSpan>,
}

impl Ui {
    /// The spans that the last render produced.
    pub closed spec fn spans_view(&self) -> Seq<TextSpan> {
        self.text_spans@
    }

    pub fn new() -> (ui: Ui)
        ensures
            ui.spans_view().len() == 0,
    {
        Ui { text_spans: Vec::new() }
    }

    /// The spans that the last render produced, in display order.
    pub fn spans(&self) -> (spans: &Vec<TextSpan>)
        ensures
            spans@ == self.spans_view(),
    {
        &self.text_spans
    }

    /// Rebuilds the display for a pitch given as a frequency in tenths of a
    /// hertz together with its measure in thousandths of a semitone above
    /// A4. The bounds on the measure keep the octave inside `u8`.
    pub fn render(&mut self, freq_dhz: u64, semitones_milli: i64)
        requires
            -57_499 <= semitones_milli <= 3_014_499,
        ensures
            display_spans_ok(final(self).spans_view(), freq_dhz as nat, semitones_milli as int),
    {
        let info = get_pitch_info(semitones_milli);
        let cent = info.cent_milli;
        let rgb = get_color_from_cent(cent);
        let hint = get_pitch_hint(cent);
        let highlighted = (if cent >= 0 {
            cent
        } else {
            -cent
        }) < 100;

        let mut head = String::from_str("Pitch: ");
        push_dec(&mut head, freq_dhz / 10);
        head.append(".");
        head.append(digit_str(freq_dhz % 10));
        head.append(" hertz\n");
        head.append("\n\n");
        assert(head@ == pitch_line_spec(freq_dhz as nat) + "\n\n"@);

        let mut note_line = info.note.literal;
        push_dec(&mut note_line, info.note.octave as u64);

        let mut tail = String::from_str(" ");
        tail.append(hint);
        tail.append("\n\n");

        self.text_spans.clear();
        if cent > 0 {
            let mut cents_text = String::from_str("+");
            push_dec(&mut cents_text, (cent / 10) as u64);
            cents_text.append(".");
            cents_text.append(digit_str((cent % 10) as u64));
            self.text_spans.push(TextSpan { text: head, color: None, highlighted: false });
            self.text_spans.push(
                TextSpan { text: cents_text, color: Some(rgb), highlighted: false },
            );
            self.text_spans.push(
                TextSpan { text: String::from_str("\n\n"), color: None, highlighted: false },
            );
            self.text_spans.push(TextSpan { text: note_line, color: None, highlighted });
            self.text_spans.push(TextSpan { text: tail, color: None, highlighted: false });
        } else if cent < 0 {
            head.append("\n\n");
            let mut cents_text = String::from_str("-");
            push_dec(&mut cents_text, ((-cent) / 10) as u64);
            cents_text.append(".");
            cents_text.append(digit_str(((-cent) % 10) as u64));
            self.text_spans.push(TextSpan { text: head, color: None, highlighted: false });
            self.text_spans.push(TextSpan { text: note_line, color: None, highlighted });
            self.text_spans.push(TextSpan { text: tail, color: None, highlighted: false });
            self.text_spans.push(
                TextSpan { text: cents_text, color: Some(rgb), highlighted: false },
            );
            self.text_spans.push(
                TextSpan { text: String::from_str("\n"), color: None, highlighted: false },
            );
        } else {
            head.append("\n\n");
            self.text_spans.push(TextSpan { text: head, color: None, highlighted: false });
            self.text_spans.push(TextSpan { text: note_line, color: None, highlighted });
            self.text_spans.push(TextSpan { text: tail, color: None, highlighted: false });
        }
    }
}

} // verus!
