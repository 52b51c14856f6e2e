//! Reading the audio state out of what the audio subsystem's control tool
//! prints: the default output, its volume, and the streams that are not
//! muted.

use crate::guard::{string_views, PulseAudioState};
use crate::text::{
    all_within, contains, contains_text, line_spans, lines, nth_word, nth_word_span, parse_u8,
    read_u8, second_field, second_field_span, shift, slice_of, spans_of, strip_trailing,
    strip_trailing_len, to_chars, trim, trim_span, Span,
};
use vstd::prelude::*;
use vstd::slice::slice_subrange;
use vstd::string::StrSliceExecFns;

verus! {

/// A property is looked for within this many lines from the line that names
/// the object, that line included.
pub const BLOCK_LINES: usize = 15;

/// Why no audio state could be read.
#[derive(Clone, Copy, Debug, PartialEq, Eq, Structural)]
pub enum PulseError {
    /// The general information names no default output.
    NoDefaultSink,
    /// The list of outputs gives no volume for the default output.
    NoVolume,
}

impl PulseError {
    /// The words in which the error is reported.
    pub fn message(self) -> (text: &'static str)
        ensures
            text@ == match self {
                PulseError::NoDefaultSink => "Failed to get default sink"@,
                PulseError::NoVolume => "Failed to get current volume"@,
            },
    {
        match self {
            PulseError::NoDefaultSink => "Failed to get default sink",
            PulseError::NoVolume => "Failed to get current volume",
        }
    }
}

/// The first of `count` lines, beginning with line `from`, that contains
/// `needle`.
pub open spec fn first_line_with(
    lines: Seq<Seq<char>>,
    needle: Seq<char>,
    from: int,
    count: nat,
) -> Option<int>
    decreases count,
{
    if count == 0 || from < 0 || from >= lines.len() {
        None
    } else if contains(lines[from], needle) {
        Some(from)
    } else {
        first_line_with(lines, needle, from + 1, (count - 1) as nat)
    }
}

/// The line that gives a property of an object: of the `BLOCK_LINES` lines
/// that begin with the first line containing `header`, the first that
/// contains `key`.
pub open spec fn block_line(lines: Seq<Seq<char>>, header: Seq<char>, key: Seq<char>) -> Option<
    Seq<char>,
> {
    match first_line_with(lines, header, 0, lines.len()) {
        None => None,
        Some(top) => match first_line_with(lines, key, top, BLOCK_LINES as nat) {
            None => None,
            Some(at) => Some(lines[at]),
        },
    }
}

/// The default output that the general information names: on the first line
/// that contains `Default Sink`, what stands between the first `": "` and
/// the next, without the white space around it.
pub open spec fn default_sink_in(info: Seq<char>) -> Option<Seq<char>> {
    let all = lines(info);
    match first_line_with(all, "Default Sink"@, 0, all.len()) {
        None => None,
        Some(at) => Some(trim(second_field(all[at], ": "@))),
    }
}

/// The volume of an output in the list of outputs: in the block of the
/// output, on the line of the front-left volume, the fifth word without its
/// percent signs, read as a number.
pub open spec fn sink_volume_in(sinks: Seq<char>, sink: Seq<char>) -> Option<u8> {
    match block_line(lines(sinks), "Name: "@ + sink, "Volume: front-left"@) {
        None => None,
        Some(line) => match nth_word(line, 4) {
            None => None,
            Some(word) => parse_u8(strip_trailing(word, '%')),
        },
    }
}

/// The identifier that a line of the short list of streams begins with:
/// its first word, or nothing if it has no word.
pub open spec fn input_id_of(line: Seq<char>) -> Seq<char> {
    match nth_word(line, 0) {
        Some(word) => word,
        None => Seq::empty(),
    }
}

/// Tells the lines that are not empty.
pub open spec fn filled() -> spec_fn(Seq<char>) -> bool {
    |line: Seq<char>| line.len() > 0
}

/// The identifiers of the streams in the short list: one for each line that
/// is not empty.
pub open spec fn input_ids_in(short: Seq<char>) -> Seq<Seq<char>> {
    lines(short).filter(filled()).map_values(|line: Seq<char>| input_id_of(line))
}

/// Whether the detailed list says that a stream is muted: in the block of
/// the stream, the line of the mute flag contains `yes`. A stream without
/// such a line counts as muted.
pub open spec fn is_muted_in(details: Seq<char>, id: Seq<char>) -> bool {
    match block_line(lines(details), "Sink Input #"@ + id, "Mute:"@) {
        Some(line) => contains(line, "yes"@),
        None => true,
    }
}

/// Tells the identifiers of streams that are not muted.
pub open spec fn unmuted(details: Seq<char>) -> spec_fn(Seq<char>) -> bool {
    |id: Seq<char>| id.len() > 0 && !is_muted_in(details, id)
}

/// The streams of the short list that the detailed list does not show as
/// muted, in the order of the short list.
pub open spec fn unmuted_inputs_in(short: Seq<char>, details: Seq<char>) -> Seq<Seq<char>> {
    input_ids_in(short).filter(unmuted(details))
}

/// What the four reports say of the audio state.
pub open spec fn audio_state_in(
    info: Seq<char>,
    sinks: Seq<char>,
    short: Seq<char>,
    details: Seq<char>,
) -> Result<(Seq<char>, u8, Seq<Seq<char>>), PulseError> {
    match default_sink_in(info) {
        None => Err(PulseError::NoDefaultSink),
        Some(sink) => match sink_volume_in(sinks, sink) {
            None => Err(PulseError::NoVolume),
            Some(volume) => Ok((sink, volume, unmuted_inputs_in(short, details))),
        },
    }
}

/// Finds the first of `count` lines, beginning with line `from`, that
/// contains `needle`.
fn find_line(text: &[char], spans: &Vec<Span>, needle: &[char], from: usize, count: usize) -> (found:
    Option<usize>)
    requires
        all_within(spans@, text@.len()),
    ensures
        match found {
            Some(at) => at < spans@.len() && first_line_with(
                spans_of(text@, spans@),
                needle@,
                from as int,
                count as nat,
            ) == Some(at as int),
            None => first_line_with(spans_of(text@, spans@), needle@, from as int, count as nat)
                is None,
        },
{
    let ghost all = spans_of(text@, spans@);
    let mut at: usize = from;
    let mut left: usize = count;
    while left > 0 && at < spans.len()
        invariant
            all_within(spans@, text@.len()),
            all == spans_of(text@, spans@),
            first_line_with(all, needle@, from as int, count as nat) == first_line_with(
                all,
                needle@,
                at as int,
                left as nat,
            ),
        decreases left,
    {
        let line = slice_of(text, spans[at]);
        if contains_text(line, needle) {
            return Some(at);
        }
        at += 1;
        left -= 1;
    }
    None
}

/// Finds the line that gives a property of an object.
fn find_block_line(text: &[char], spans: &Vec<Span>, header: &[char], key: &[char]) -> (found:
    Option<Span>)
    requires
        all_within(spans@, text@.len()),
    ensures
        match found {
            Some(span) => span.within(text@.len()) && block_line(
                spans_of(text@, spans@),
                header@,
                key@,
            ) == Some(span.of(text@)),
            None => block_line(spans_of(text@, spans@), header@, key@) is None,
        },
{
    match find_line(text, spans, header, 0, spans.len()) {
        None => None,
        Some(top) => match find_line(text, spans, key, top, BLOCK_LINES) {
            None => None,
            Some(at) => Some(spans[at]),
        },
    }
}

/// Copies a stretch of a string.
fn copy_span(source: &str, span: Span) -> (copy: String)
    requires
        span.within(source@.len()),
    ensures
        copy@ == span.of(source@),
{
    source.substring_char(span.start, span.end).to_owned()
}

/// Reads the name of the default output from the general information.
pub fn parse_default_sink(info: &str) -> (sink: Option<String>)
    ensures
        match sink {
            Some(name) => default_sink_in(info@) == Some(name@),
            None => default_sink_in(info@) is None,
        },
{
    let chars = to_chars(info);
    let text = chars.as_slice();
    let spans = line_spans(text);
    let needle = to_chars("Default Sink");
    let separator = to_chars(": ");
    match find_line(text, &spans, needle.as_slice(), 0, spans.len()) {
        None => None,
        Some(at) => {
            let line = slice_of(text, spans[at]);
            let field = second_field_span(line, separator.as_slice());
            let trimmed = trim_span(slice_of(line, field));
            let in_line = shift(field, trimmed, Ghost(line@));
            let in_text = shift(spans[at], in_line, Ghost(text@));
            Some(copy_span(info, in_text))
        },
    }
}

/// Reads the volume of an output from the list of outputs.
pub fn parse_sink_volume(sinks: &str, sink: &str) -> (volume: Option<u8>)
    ensures
        volume == sink_volume_in(sinks@, sink@),
{
    let chars = to_chars(sinks);
    let text = chars.as_slice();
    let spans = line_spans(text);
    let mut header = to_chars("Name: ");
    let mut name = to_chars(sink);
    header.append(&mut name);
    let key = to_chars("Volume: front-left");
    match find_block_line(text, &spans, header.as_slice(), key.as_slice()) {
        None => None,
        Some(span) => {
            let line = slice_of(text, span);
            match nth_word_span(line, 4) {
                None => None,
                Some(word_span) => {
                    let word = slice_of(line, word_span);
                    let len = strip_trailing_len(word, '%');
                    read_u8(slice_subrange(word, 0, len))
                },
            }
        },
    }
}

/// Reads the identifiers of the streams from the short list of streams.
pub fn parse_sink_input_ids(short: &str) -> (ids: Vec<String>)
    ensures
        string_views(ids@) == input_ids_in(short@),
{
    let chars = to_chars(short);
    let text = chars.as_slice();
    let spans = line_spans(text);
    let ghost all = lines(text@);
    let mut ids: Vec<String> = Vec::new();
    let mut i: usize = 0;
    proof {
        reveal(Seq::filter);
        assert(all.take(0) =~= Seq::<Seq<char>>::empty());
        assert(string_views(ids@) =~= all.take(0).filter(filled()).map_values(
            |line: Seq<char>| input_id_of(line),
        ));
    }
    while i < spans.len()
        invariant
            i <= spans@.len(),
            text@ == short@,
            all == lines(text@),
            all_within(spans@, text@.len()),
            spans_of(text@, spans@) == all,
            string_views(ids@) == all.take(i as int).filter(filled()).map_values(
                |line: Seq<char>| input_id_of(line),
            ),
        decreases spans@.len() - i,
    {
        let span = spans[i];
        let ghost before = all.take(i as int);
        let ghost after = all.take(i + 1);
        let ghost old_ids = string_views(ids@);
        proof {
            reveal(Seq::filter);
            assert(after.drop_last() =~= before);
            assert(after.last() == all[i as int]);
            assert(all[i as int] == span.of(text@));
        }
        if span.end > span.start {
            let line = slice_of(text, span);
            let id = match nth_word_span(line, 0) {
                Some(word) => copy_span(short, shift(span, word, Ghost(text@))),
                None => String::new(),
            };
            ids.push(id);
            proof {
                assert(id@ == input_id_of(all[i as int]));
                assert(after.filter(filled()) == before.filter(filled()).push(all[i as int]));
                assert(string_views(ids@) =~= old_ids.push(id@));
                assert(string_views(ids@) =~= after.filter(filled()).map_values(
                    |line: Seq<char>| input_id_of(line),
                ));
            }
        } else {
            proof {
                assert(all[i as int].len() == 0);
                assert(after.filter(filled()) == before.filter(filled()));
            }
        }
        i += 1;
    }
    assert(all.take(i as int) =~= all);
    ids
}

/// Tells whether the detailed list of streams, given with its lines, shows
/// a stream as muted.
fn is_muted(text: &[char], spans: &Vec<Span>, id: &str) -> (muted: bool)
    requires
        all_within(spans@, text@.len()),
        spans_of(text@, spans@) == lines(text@),
    ensures
        muted == is_muted_in(text@, id@),
{
    let mut header = to_chars("Sink Input #");
    let mut name = to_chars(id);
    header.append(&mut name);
    let key = to_chars("Mute:");
    let yes = to_chars("yes");
    match find_block_line(text, spans, header.as_slice(), key.as_slice()) {
        Some(span) => contains_text(slice_of(text, span), yes.as_slice()),
        None => true,
    }
}

/// Tells whether the detailed list of streams shows a stream as muted.
pub fn is_sink_input_muted(details: &str, id: &str) -> (muted: bool)
    ensures
        muted == is_muted_in(details@, id@),
{
    let chars = to_chars(details);
    let text = chars.as_slice();
    let spans = line_spans(text);
    is_muted(text, &spans, id)
}

/// Reads the streams that are not muted from the short and the detailed
/// list of streams.
pub fn parse_unmuted_inputs(short: &str, details: &str) -> (inputs: Vec<String>)
    ensures
        string_views(inputs@) == unmuted_inputs_in(short@, details@),
{
    let ids = parse_sink_input_ids(short);
    let chars = to_chars(details);
    let text = chars.as_slice();
    let spans = line_spans(text);
    let ghost all = input_ids_in(short@);
    let mut inputs: Vec<String> = Vec::new();
    let mut i: usize = 0;
    proof {
        reveal(Seq::filter);
        assert(all.take(0) =~= Seq::<Seq<char>>::empty());
        assert(string_views(inputs@) =~= all.take(0).filter(unmuted(details@)));
    }
    while i < ids.len()
        invariant
            i <= ids@.len(),
            text@ == details@,
            all == string_views(ids@),
            all_within(spans@, text@.len()),
            spans_of(text@, spans@) == lines(text@),
            string_views(inputs@) == all.take(i as int).filter(unmuted(details@)),
        decreases ids@.len() - i,
    {
        let ghost before = all.take(i as int);
        let ghost after = all.take(i + 1);
        let ghost old_inputs = string_views(inputs@);
        proof {
            reveal(Seq::filter);
            assert(after.drop_last() =~= before);
            assert(after.last() == ids@[i as int]@);
        }
        let id = ids[i].clone();
        if id.as_str().unicode_len() > 0 && !is_muted(text, &spans, id.as_str()) {
            inputs.push(id);
            proof {
                assert(string_views(inputs@) =~= old_inputs.push(id@));
            }
        }
        i += 1;
    }
    assert(all.take(i as int) =~= all);
    inputs
}

/// Reads the audio state out of four reports of the control tool: the
/// general information, the list of outputs, the short list of streams and
/// the detailed list of streams.
///
/// The result holds the default output, its volume in percent and the
/// streams that are not muted. It is an error if no default output is named,
/// and, where one is named, if no volume is given for it.
pub fn get_pulseaudio_state(info: &str, sinks: &str, short: &str, details: &str) -> (state: Result<
    PulseAudioState,
    PulseError,
>)
    ensures
        match state {
            Ok(found) => audio_state_in(info@, sinks@, short@, details@) == Ok::<
                (Seq<char>, u8, Seq<Seq<char>>),
                PulseError,
            >((found.default_sink@, found.current_volume, string_views(found.unmuted_inputs@))),
            Err(error) => audio_state_in(info@, sinks@, short@, details@) == Err::<
                (Seq<char>, u8, Seq<Seq<char>>),
                PulseError,
            >(error),
        },
{
    let default_sink = match parse_default_sink(info) {
        Some(sink) => sink,
        None => {
            return Err(PulseError::NoDefaultSink);
        },
    };
    let current_volume = match parse_sink_volume(sinks, default_sink.as_str()) {
        Some(volume) => volume,
        None => {
            return Err(PulseError::NoVolume);
        },
    };
    let unmuted_inputs = parse_unmuted_inputs(short, details);
    Ok(PulseAudioState { default_sink, current_volume, unmuted_inputs })
}

} // verus!
