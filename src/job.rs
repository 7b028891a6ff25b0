use vstd::prelude::*;
use crate::pixels::{decode, frame_rgb, png_frame_of, DecodeError, PixelBuffer};
use crate::quality::{encodable_size, is_encodable_size, quality_in_range, Quality};

verus! {

/// Why one file was not converted.
#[derive(Clone, Debug, PartialEq, Eq)]
pub enum Failure {
    /// The input file could not be read; the reader's message.
    Read(String),
    /// The input bytes gave no RGB pixels.
    Decode(DecodeError),
    /// The quality lies outside `1.0..=100.0`; it is refused, never clamped.
    InvalidQuality(Quality),
    /// The image is empty or larger than a JPEG file can hold.
    UnencodableSize(u32, u32),
    /// The encoder failed; its message.
    Encode(String),
    /// The output could not be written; the writer's message.
    Write(String),
    /// The file does not lie under the source root.
    OutsideSource,
}

impl Failure {
    pub fn describe(&self) -> String {
        match self {
            Failure::Read(m) => m.clone(),
            Failure::Decode(d) => d.describe(),
            Failure::InvalidQuality(_) => "quality out of range 1..=100".to_string(),
            Failure::UnencodableSize(_, _) => "image size not encodable as JPEG".to_string(),
            Failure::Encode(m) => m.clone(),
            Failure::Write(m) => m.clone(),
            Failure::OutsideSource => "file does not lie under the source root".to_string(),
        }
    }
}

/// How one file's conversion ended.
#[derive(Clone, Debug, PartialEq, Eq)]
pub enum Outcome {
    /// Its destination was already present and was left alone.
    Skipped,
    Succeeded,
    Failed(Failure),
}

/// Where one file stands in its conversion.
pub enum Stage {
    Discovered,
    /// Waiting for the input file's bytes.
    Reading,
    /// Waiting for the encoder to write the destination.
    Encoding,
    Finished(Outcome),
}

/// What the outside world reports back for one file.
pub enum Event {
    /// Whether the destination path is already present.
    DestinationChecked(bool),
    /// The input file's bytes, or why they could not be read.
    SourceRead(Result<Vec<u8>, String>),
    /// The encoded output is in place at the destination.
    Written,
    EncodeFailed(String),
    WriteFailed(String),
}

/// What the outside world is asked to do next for one file.
pub enum Action {
    Nothing,
    ReadSource,
    /// Encode these pixels at this quality and write them to the destination.
    EncodeAndWrite(PixelBuffer, Quality),
    /// Delete whatever may stand at the destination; failure to do so is
    /// of no consequence.
    RemoveOutput,
}

pub open spec fn is_failed(s: Stage) -> bool {
    s is Finished && s->Finished_0 is Failed
}

pub open spec fn failed_with(r: (Stage, Action), f: Failure) -> bool {
    r.0 == Stage::Finished(Outcome::Failed(f)) && r.1 is RemoveOutput
}

/// What follows the reading of an input file's bytes.
pub open spec fn reacts_to_source(r: (Stage, Action), bytes: Seq<u8>, q: Quality) -> bool {
    match png_frame_of(bytes) {
        None => is_failed(r.0) && r.0->Finished_0->Failed_0 is Decode && r.1 is RemoveOutput,
        Some(f) => match frame_rgb(f) {
            Err(d) => failed_with(r, Failure::Decode(d)),
            Ok(s) => if !quality_in_range(q) {
                failed_with(r, Failure::InvalidQuality(q))
            } else if !encodable_size(f.width, f.height) {
                failed_with(r, Failure::UnencodableSize(f.width, f.height))
            } else {
                r.0 is Encoding && r.1 is EncodeAndWrite && r.1->EncodeAndWrite_0.rgb@ == s
                    && r.1->EncodeAndWrite_0.width == f.width
                    && r.1->EncodeAndWrite_0.height == f.height
                    && r.1->EncodeAndWrite_1 == q
            },
        },
    }
}

/// What follows the probe of the destination path.
pub open spec fn reacts_to_probe(r: (Stage, Action), present: bool) -> bool {
    if present {
        r.0 == Stage::Finished(Outcome::Skipped) && r.1 is Nothing
    } else {
        r.0 is Reading && r.1 is ReadSource
    }
}

/// Decides what becomes of decoded pixels: an out-of-range quality or a size
/// the encoder refuses ends the file as failed, anything else goes to the
/// encoder with the quality unchanged.
pub fn after_decode(decoded: Result<PixelBuffer, DecodeError>, quality: Quality) -> (r: (
    Stage,
    Action,
))
    requires
        decoded is Ok ==> decoded->Ok_0.wf(),
    ensures
        match decoded {
            Err(e) => failed_with(r, Failure::Decode(e)),
            Ok(p) => if !quality_in_range(quality) {
                failed_with(r, Failure::InvalidQuality(quality))
            } else if !encodable_size(p.width, p.height) {
                failed_with(r, Failure::UnencodableSize(p.width, p.height))
            } else {
                r.0 is Encoding && r.1 == Action::EncodeAndWrite(p, quality)
            },
        },
        r.1 is EncodeAndWrite ==> r.1->EncodeAndWrite_0.wf(),
{
    match decoded {
        Err(e) => (Stage::Finished(Outcome::Failed(Failure::Decode(e))), Action::RemoveOutput),
        Ok(p) => {
            if !quality.is_in_range() {
                (Stage::Finished(Outcome::Failed(Failure::InvalidQuality(quality))), Action::RemoveOutput)
            } else if !is_encodable_size(p.width, p.height) {
                let (w, h) = (p.width, p.height);
                (Stage::Finished(Outcome::Failed(Failure::UnencodableSize(w, h))), Action::RemoveOutput)
            } else {
                (Stage::Encoding, Action::EncodeAndWrite(p, quality))
            }
        },
    }
}

/// The relation between a step's inputs and its result.
pub open spec fn steps_to(stage: Stage, event: Event, quality: Quality, r: (Stage, Action)) -> bool {
    &&& stage is Discovered && event is DestinationChecked ==> reacts_to_probe(
        r,
        event->DestinationChecked_0,
    )
    &&& stage is Reading && event is SourceRead ==> match event->SourceRead_0 {
        Err(m) => failed_with(r, Failure::Read(m)),
        Ok(b) => reacts_to_source(r, b@, quality),
    }
    &&& stage is Encoding && event is Written ==> r.0 == Stage::Finished(Outcome::Succeeded)
        && r.1 is Nothing
    &&& stage is Encoding && event is EncodeFailed ==> failed_with(
        r,
        Failure::Encode(event->EncodeFailed_0),
    )
    &&& stage is Encoding && event is WriteFailed ==> failed_with(
        r,
        Failure::Write(event->WriteFailed_0),
    )
    &&& !(stage is Discovered && event is DestinationChecked) && !(stage is Reading
        && event is SourceRead) && !(stage is Encoding && (event is Written || event is EncodeFailed
        || event is WriteFailed)) ==> r.0 == stage && r.1 is Nothing
    &&& r.1 is RemoveOutput ==> is_failed(r.0)
    &&& is_failed(r.0) && !is_failed(stage) ==> r.1 is RemoveOutput
    &&& r.1 is EncodeAndWrite ==> r.1->EncodeAndWrite_0.wf() && r.1->EncodeAndWrite_1 == quality
}

/// One step of a file's conversion: from where it stands and what was
/// reported, to where it stands next and what is to be done. A report that
/// does not fit the stage changes nothing.
pub fn step(stage: Stage, event: Event, quality: Quality) -> (r: (Stage, Action))
    ensures
        steps_to(stage, event, quality, r),
{
    match (stage, event) {
        (Stage::Discovered, Event::DestinationChecked(present)) => {
            if present {
                (Stage::Finished(Outcome::Skipped), Action::Nothing)
            } else {
                (Stage::Reading, Action::ReadSource)
            }
        },
        (Stage::Reading, Event::SourceRead(Err(m))) => (
            Stage::Finished(Outcome::Failed(Failure::Read(m))),
            Action::RemoveOutput,
        ),
        (Stage::Reading, Event::SourceRead(Ok(bytes))) => after_decode(
            decode(bytes.as_slice()),
            quality,
        ),
        (Stage::Encoding, Event::Written) => (Stage::Finished(Outcome::Succeeded), Action::Nothing),
        (Stage::Encoding, Event::EncodeFailed(m)) => (
            Stage::Finished(Outcome::Failed(Failure::Encode(m))),
            Action::RemoveOutput,
        ),
        (Stage::Encoding, Event::WriteFailed(m)) => (
            Stage::Finished(Outcome::Failed(Failure::Write(m))),
            Action::RemoveOutput,
        ),
        (s, _) => (s, Action::Nothing),
    }
}

/// A file that fails has whatever stands at its destination removed, so no
/// partial output is left behind there.
pub proof fn lemma_failure_removes_output(stage: Stage, event: Event, quality: Quality, r: (
    Stage,
    Action,
))
    requires
        steps_to(stage, event, quality, r),
        is_failed(r.0),
        !is_failed(stage),
    ensures
        r.1 is RemoveOutput,
{
}

/// Running again over the same destination: a file whose output is present
/// ends as skipped and nothing is written or removed for it; and a file ends
/// as succeeded only once its output has been written. So every output of a
/// first run is kept as it was, and its files are skipped by the next run.
pub proof fn lemma_rerun_skips_finished_outputs(
    stage: Stage,
    event: Event,
    quality: Quality,
    r: (Stage, Action),
    again: (Stage, Action),
)
    requires
        steps_to(stage, event, quality, r),
        r.0 == Stage::Finished(Outcome::Succeeded),
        stage != r.0,
        steps_to(Stage::Discovered, Event::DestinationChecked(true), quality, again),
    ensures
        stage is Encoding && event is Written,
        again.0 == Stage::Finished(Outcome::Skipped),
        again.1 is Nothing,
{
}

/// An out-of-range quality fails every file whose bytes were read, whatever
/// they hold; a quality in range reaches the encoder unchanged.
pub proof fn lemma_bad_quality_fails_every_file(bytes: Vec<u8>, quality: Quality, r: (
    Stage,
    Action,
))
    requires
        steps_to(Stage::Reading, Event::SourceRead(Ok(bytes)), quality, r),
    ensures
        !quality_in_range(quality) ==> is_failed(r.0),
        r.1 is EncodeAndWrite ==> r.1->EncodeAndWrite_1 == quality,
{
}

} // verus!
