use vstd::prelude::*;

use libosu::beatmap::Beatmap as OsuModel;

verus! {

// The native model and the JSON tree are opaque to the verifier: values of
// these types are carried through, never inspected here.

#[verifier::external_type_specification]
#[verifier::external_body]
pub struct ExOsuModel(OsuModel);

#[verifier::external_type_specification]
#[verifier::external_body]
pub struct ExJsonValue(serde_json::Value);

/// Whether the characters from `start` to `end` (exclusive) stand as one
/// line of the text, as the parser's reader cuts lines: `start` is the
/// text's beginning or follows a newline, `end` is the text's end or holds
/// a newline, and no newline stands between.
pub open spec fn is_line(text: Seq<char>, start: int, end: int) -> bool {
    0 <= start <= end <= text.len() && (start == 0 || text[start - 1] == '\n') && (end
        == text.len() || text[end] == '\n') && (forall|k: int|
        start <= k < end ==> text[k] != '\n')
}

/// The line as the parser's reader hands it on: a carriage return just
/// before a newline is stripped; the text's last line keeps one.
pub open spec fn read_line(text: Seq<char>, start: int, end: int) -> Seq<char> {
    if end < text.len() && start < end && text[end - 1] == '\r' {
        text.subrange(start, end - 1)
    } else {
        text.subrange(start, end)
    }
}

/// The section headers whose line readers in libosu index into the split
/// line unguarded: a malformed line in one of these sections aborts the
/// parse instead of erring.
pub open spec fn risky_header(line: Seq<char>) -> bool {
    line == "[Events]"@ || line == "[HitObjects]"@ || line == "[TimingPoints]"@ || line
        == "[Colours]"@
}

/// The texts on which the parser is known to return rather than abort: none
/// of their lines is a header that opens one of the risky sections, so the
/// parser never runs a line reader that can abort — every arm it does run
/// turns a bad value into an error.
pub open spec fn parser_total_domain(text: Seq<char>) -> bool {
    forall|start: int, end: int|
        is_line(text, start, end) ==> !risky_header(read_line(text, start, end))
}

/// What the beatmap parser decodes from a text: on success the format
/// version, the audio filename and the audio lead-in in milliseconds (the
/// lead-in as the stored signed count reinterpreted as unsigned), on
/// failure the rendered detail of the parse error. The parser reads nothing
/// but the text, so its outcome is a function of the text alone.
pub uninterp spec fn beatmap_parse(text: Seq<char>) -> Result<(u32, Seq<char>, u32), Seq<char>>;

/// Relies on libosu's `Beatmap::parse`, reading a beatmap from its textual
/// form: it decodes the whole model, and the surfaced fields `version`,
/// `audio_filename` and `audio_leadin` are handed out beside it as plain
/// values. A failure is rendered through the error's `Display` impl. The
/// parser aborts on some malformed lines of the event, hit-object, timing
/// and colour sections, so `requires` admits only texts that open none of
/// those sections.
#[verifier::external_body]
pub(crate) fn parse_model(data: &str) -> (r: Result<(OsuModel, u32, String, u32), String>)
    requires
        parser_total_domain(data@),
    ensures
        r is Ok <==> beatmap_parse(data@) is Ok,
        r matches Ok(ok) ==> beatmap_parse(data@) matches Ok(f) && ok.1 == f.0 && ok.2@ == f.1
            && ok.3 == f.2,
        r matches Err(e) ==> beatmap_parse(data@) matches Err(d) && e@ == d,
{
    match OsuModel::parse(std::io::Cursor::new(data)) {
        Ok(m) => {
            let version = m.version;
            let audio_filename = m.audio_filename.clone();
            let audio_leadin = m.audio_leadin.0 as u32;
            Ok((m, version, audio_filename, audio_leadin))
        }
        Err(e) => Err(format!("{}", e)),
    }
}

/// Relies on libosu's `Default` for `Beatmap`, whose source sets
/// `version: 0`, `audio_filename: String::new()` and `audio_leadin: Millis(0)`.
#[verifier::external_body]
pub(crate) fn default_model() -> (r: (OsuModel, u32, String, u32))
    ensures
        r.1 == 0u32,
        r.2@ == Seq::<char>::empty(),
        r.3 == 0u32,
{
    let m = OsuModel::default();
    let version = m.version;
    let audio_filename = m.audio_filename.clone();
    let audio_leadin = m.audio_leadin.0 as u32;
    (m, version, audio_filename, audio_leadin)
}

/// Relies on plain assignment to the `version` field of libosu's model.
#[verifier::external_body]
pub(crate) fn model_set_version(m: &mut OsuModel, value: u32) {
    m.version = value;
}

/// Relies on plain assignment to the `audio_filename` field of libosu's model.
#[verifier::external_body]
pub(crate) fn model_set_audio_filename(m: &mut OsuModel, value: &str) {
    m.audio_filename = value.to_owned();
}

/// Relies on plain assignment to the `audio_leadin` field of libosu's model,
/// which holds milliseconds as `Millis(i32)`.
#[verifier::external_body]
pub(crate) fn model_set_audio_leadin(m: &mut OsuModel, value: u32) {
    m.audio_leadin = libosu::timing::Millis(value as i32);
}

/// Relies on `serde_json::to_value` over libosu's model: the whole model as
/// a JSON tree, which the call always hands back. It cannot fail on this
/// model type: every `Serialize` impl it reaches is derived, no map stands
/// in the model, and the value serializer renders even a non-finite float
/// as `Null` rather than erring. Nothing is claimed of the tree's shape:
/// the model is opaque here, so a claim could name no field of it.
#[verifier::external_body]
pub(crate) fn model_to_json(m: &OsuModel) -> (r: Option<serde_json::Value>)
    ensures
        r is Some,
{
    serde_json::to_value(m).ok()
}

} // verus!
