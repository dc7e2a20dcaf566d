use vstd::prelude::*;

use libosu::beatmap::Beatmap as OsuModel;
use vstd::string::StringExecFns;

use crate::model::beatmap_parse;
use crate::model::default_model;
use crate::model::parser_total_domain;
use crate::model::model_set_audio_filename;
use crate::model::model_set_audio_leadin;
use crate::model::model_set_version;
use crate::model::model_to_json;
use crate::model::parse_model;

verus! {

/// What a handle shows at the boundary: the three fields that the accessor
/// surface reads and writes, as mathematical values.
pub ghost struct BeatmapView {
    pub version: u32,
    pub audio_filename: Seq<char>,
    pub audio_leadin: u32,
}

impl BeatmapView {
    pub open spec fn with_version(self, value: u32) -> BeatmapView {
        BeatmapView { version: value, ..self }
    }

    pub open spec fn with_audio_filename(self, value: Seq<char>) -> BeatmapView {
        BeatmapView { audio_filename: value, ..self }
    }

    pub open spec fn with_audio_leadin(self, value: u32) -> BeatmapView {
        BeatmapView { audio_leadin: value, ..self }
    }
}

/// The view a freshly parsed handle carries: exactly the fields the parser
/// decoded from the text.
pub open spec fn parsed_view(fields: (u32, Seq<char>, u32)) -> BeatmapView {
    BeatmapView { version: fields.0, audio_filename: fields.1, audio_leadin: fields.2 }
}

/// The two ways a handle can fail to come into being: the text does not
/// conform to the beatmap grammar, or the file behind a path could not be
/// read at all.
#[derive(Debug)]
pub enum BeatmapError {
    Parse(String),
    Io(String),
}

/// The rendered message of an error. A parse failure is wrapped with the
/// fixed `"sad: "` prefix; a file failure is passed through bare. The
/// asymmetry is deliberate and kept as found.
pub open spec fn message_of(e: BeatmapError) -> Seq<char> {
    match e {
        BeatmapError::Parse(detail) => "sad: "@ + detail@,
        BeatmapError::Io(detail) => detail@,
    }
}

impl BeatmapError {
    /// The message a caller sees: `"sad: <detail>"` for a parse failure,
    /// the bare detail for a file failure.
    pub fn message(&self) -> (r: String)
        ensures
            r@ == message_of(*self),
    {
        match self {
            BeatmapError::Parse(detail) => "sad: ".to_owned().concat(detail.as_str()),
            BeatmapError::Io(detail) => detail.as_str().to_owned(),
        }
    }
}

/// One parsed beatmap. The handle owns the full native model, and beside it
/// the three surfaced fields as plain values and the model's JSON
/// rendering; every write goes to the model and refreshes the rendering, so
/// an unmutated handle hands out one and the same JSON tree on every call.
pub struct Beatmap {
    model: OsuModel,
    version: u32,
    audio_filename: String,
    audio_leadin: u32,
    json: serde_json::Value,
}

impl View for Beatmap {
    type V = BeatmapView;

    closed spec fn view(&self) -> BeatmapView {
        BeatmapView {
            version: self.version,
            audio_filename: self.audio_filename@,
            audio_leadin: self.audio_leadin,
        }
    }
}

impl Beatmap {
    /// The JSON tree the handle currently holds for its model.
    pub closed spec fn json_spec(&self) -> serde_json::Value {
        self.json
    }

    /// Reads a beatmap from its complete textual form. Succeeds exactly
    /// where the parser accepts the text, and then surfaces the decoded
    /// fields; a rejection comes back as `Parse` carrying the parser's own
    /// detail text. The native parser aborts on some malformed lines of the
    /// event, hit-object, timing and colour sections, so texts that open
    /// one of those sections lie outside this function's domain; a
    /// host-facing caller that admits every text aborts on such a line, as
    /// the original boundary did.
    pub fn parse(data: &str) -> (r: Result<Beatmap, BeatmapError>)
        requires
            parser_total_domain(data@),
        ensures
            r is Ok <==> beatmap_parse(data@) is Ok,
            r matches Ok(b) ==> beatmap_parse(data@) matches Ok(f) && b@ == parsed_view(f),
            r matches Err(e) ==> beatmap_parse(data@) matches Err(d)
                && e matches BeatmapError::Parse(msg) && msg@ == d,
    {
        match parse_model(data) {
            Ok((model, version, audio_filename, audio_leadin)) => {
                let json = model_to_json(&model).unwrap();
                Ok(Beatmap { model, version, audio_filename, audio_leadin, json })
            },
            Err(detail) => Err(BeatmapError::Parse(detail)),
        }
    }

    /// A handle over the model's default values: format version 0, an empty
    /// audio filename, no audio lead-in. Never fails.
    pub fn construct() -> (r: Beatmap)
        ensures
            r@.version == 0,
            r@.audio_filename == Seq::<char>::empty(),
            r@.audio_leadin == 0,
    {
        let (model, version, audio_filename, audio_leadin) = default_model();
        let json = model_to_json(&model).unwrap();
        Beatmap { model, version, audio_filename, audio_leadin, json }
    }

    /// The whole owned model as a JSON tree, timing points and hit objects
    /// with the rest. The handle is read, never changed, and hands out the
    /// tree it holds: two calls with no write between them yield one and
    /// the same value.
    pub fn asJson(&self) -> (r: &serde_json::Value)
        ensures
            *r == self.json_spec(),
    {
        &self.json
    }

    /// The file-format revision in use.
    pub fn version(&self) -> (r: u32)
        ensures
            r == self@.version,
    {
        self.version
    }

    /// Replaces the file-format revision, unconditionally; the other fields
    /// keep their values.
    pub fn set_version(&mut self, value: u32)
        ensures
            final(self)@ == old(self)@.with_version(value),
    {
        model_set_version(&mut self.model, value);
        self.version = value;
        self.json = model_to_json(&self.model).unwrap();
    }

    /// The audio file's path, relative to the beatmap file.
    pub fn audioFilename(&self) -> (r: String)
        ensures
            r@ == self@.audio_filename,
    {
        self.audio_filename.as_str().to_owned()
    }

    /// Replaces the audio file's path, unconditionally: any string is
    /// accepted as-is, with no check against the filesystem; the other
    /// fields keep their values.
    pub fn set_audioFilename(&mut self, value: &str)
        ensures
            final(self)@ == old(self)@.with_audio_filename(value@),
    {
        model_set_audio_filename(&mut self.model, value);
        self.audio_filename = value.to_owned();
        self.json = model_to_json(&self.model).unwrap();
    }

    /// The silence, in milliseconds, before the audio starts playing.
    pub fn audioLeadIn(&self) -> (r: u32)
        ensures
            r == self@.audio_leadin,
    {
        self.audio_leadin
    }

    /// Replaces the audio lead-in, unconditionally; the other fields keep
    /// their values. The native model stores the lead-in as a signed 32-bit
    /// count, so a value above `i32::MAX` reaches the model, and with it
    /// the JSON rendering, reinterpreted as negative; the surfaced field
    /// keeps the value as given.
    pub fn set_audioLeadIn(&mut self, value: u32)
        ensures
            final(self)@ == old(self)@.with_audio_leadin(value),
    {
        model_set_audio_leadin(&mut self.model, value);
        self.audio_leadin = value;
        self.json = model_to_json(&self.model).unwrap();
    }
}

/// Whatever triple of fields the parser decodes from a text, the handle a
/// successful parse builds over it shows exactly those fields: the format
/// version, then the audio filename, then the audio lead-in. Together with
/// the contracts of `parse` and of the three getters, reading the fields of
/// a parsed handle yields just what was decoded.
pub proof fn lemma_parse_round_trip(fields: (u32, Seq<char>, u32))
    ensures
        parsed_view(fields).version == fields.0,
        parsed_view(fields).audio_filename == fields.1,
        parsed_view(fields).audio_leadin == fields.2,
{
}

/// Setting a field and then reading that field yields exactly the value
/// just set, whatever the handle held before; the two other fields keep
/// their values. Together with the contracts of the setters and getters,
/// this is the accessor surface's write-then-read law for every field.
pub proof fn lemma_set_then_get(m: BeatmapView, version: u32, name: Seq<char>, leadin: u32)
    ensures
        m.with_version(version).version == version,
        m.with_version(version).audio_filename == m.audio_filename,
        m.with_version(version).audio_leadin == m.audio_leadin,
        m.with_audio_filename(name).audio_filename == name,
        m.with_audio_filename(name).version == m.version,
        m.with_audio_filename(name).audio_leadin == m.audio_leadin,
        m.with_audio_leadin(leadin).audio_leadin == leadin,
        m.with_audio_leadin(leadin).version == m.version,
        m.with_audio_leadin(leadin).audio_filename == m.audio_filename,
{
}

/// A parse failure's rendered message always begins with `"sad: "`,
/// whatever detail the parser reported.
pub proof fn lemma_parse_message_prefix(detail: String)
    ensures
        message_of(BeatmapError::Parse(detail)).take(5) == "sad: "@,
{
    reveal_strlit("sad: ");
    assert(message_of(BeatmapError::Parse(detail)).take(5) =~= "sad: "@);
}

} // verus!

