//! The stream analysis of a session: from what the engine told of its
//! streams to the lines of the report.

use vstd::prelude::*;
use crate::keyboard::DigitBinding;
use crate::model::TrackKind;

verus! {

/// The tags of one stream that the report reads.
#[derive(Clone, Debug, PartialEq, Eq)]
pub struct StreamTags {
    pub codec: Option<String>,
    pub language: Option<String>,
    pub bitrate: Option<u32>,
}

/// What the engine told of its streams: per kind one entry for each
/// stream, `None` where the stream has no tags, and the current stream of
/// each kind as the engine numbers it.
#[derive(Clone, Debug, PartialEq, Eq)]
pub struct StreamSurvey {
    pub video: Vec<Option<StreamTags>>,
    pub audio: Vec<Option<StreamTags>>,
    pub text: Vec<Option<StreamTags>>,
    pub current_video: i32,
    pub current_audio: i32,
    pub current_text: i32,
}

/// One line of the report.
#[derive(Clone, Debug, PartialEq, Eq)]
pub enum ReportLine {
    /// How many streams of each kind there are.
    Counts { n_video: usize, n_audio: usize, n_text: usize },
    /// The lines of stream `index` of `kind` follow.
    StreamHeader { kind: TrackKind, index: usize },
    Codec(String),
    Language(String),
    Bitrate(u32),
    /// A subtitle stream without tags, noted where the digit keys select
    /// subtitles.
    NoTags,
    /// The streams that play now.
    Current { video: i32, audio: i32, text: i32 },
    /// Which kind of stream a digit key selects.
    Prompt(DigitBinding),
}

/// The lines for one stream: with tags, a header and then the codec (video
/// and audio), the language (audio and subtitles) and the bitrate (audio),
/// each where the tags hold it. A stream without tags gets no line, but
/// for a subtitle stream of a session whose digit keys select subtitles,
/// which gets a note.
pub open spec fn stream_lines(
    kind: TrackKind,
    index: usize,
    tags: Option<StreamTags>,
    binding: DigitBinding,
) -> Seq<ReportLine> {
    match tags {
        Some(t) => {
            let codec = if kind != TrackKind::Text && t.codec is Some {
                seq![ReportLine::Codec(t.codec->0)]
            } else {
                Seq::empty()
            };
            let language = if kind != TrackKind::Video && t.language is Some {
                seq![ReportLine::Language(t.language->0)]
            } else {
                Seq::empty()
            };
            let bitrate = if kind == TrackKind::Audio && t.bitrate is Some {
                seq![ReportLine::Bitrate(t.bitrate->0)]
            } else {
                Seq::empty()
            };
            seq![ReportLine::StreamHeader { kind, index }] + codec + language + bitrate
        },
        None => if kind == TrackKind::Text && binding == DigitBinding::Text {
            seq![ReportLine::NoTags]
        } else {
            Seq::empty()
        },
    }
}

/// The lines for all streams of one kind, in the order of the streams.
pub open spec fn kind_lines(
    kind: TrackKind,
    entries: Seq<Option<StreamTags>>,
    binding: DigitBinding,
) -> Seq<ReportLine>
    decreases entries.len(),
{
    if entries.len() == 0 {
        Seq::empty()
    } else {
        kind_lines(kind, entries.drop_last(), binding) + stream_lines(
            kind,
            (entries.len() - 1) as usize,
            entries.last(),
            binding,
        )
    }
}

/// The whole report: the counts, the video, audio and subtitle streams,
/// the current streams, and the prompt.
pub open spec fn report_lines(survey: StreamSurvey, binding: DigitBinding) -> Seq<ReportLine> {
    seq![
        ReportLine::Counts {
            n_video: survey.video@.len() as usize,
            n_audio: survey.audio@.len() as usize,
            n_text: survey.text@.len() as usize,
        },
    ] + kind_lines(TrackKind::Video, survey.video@, binding) + kind_lines(
        TrackKind::Audio,
        survey.audio@,
        binding,
    ) + kind_lines(TrackKind::Text, survey.text@, binding) + seq![
        ReportLine::Current {
            video: survey.current_video,
            audio: survey.current_audio,
            text: survey.current_text,
        },
        ReportLine::Prompt(binding),
    ]
}

fn push_stream_lines(
    out: &mut Vec<ReportLine>,
    kind: TrackKind,
    index: usize,
    tags: &Option<StreamTags>,
    binding: DigitBinding,
)
    ensures
        final(out)@ == old(out)@ + stream_lines(kind, index, *tags, binding),
{
    let notes = match binding {
        DigitBinding::Text => true,
        DigitBinding::Audio => false,
    };
    let is_video = match kind {
        TrackKind::Video => true,
        _ => false,
    };
    let is_audio = match kind {
        TrackKind::Audio => true,
        _ => false,
    };
    let is_text = match kind {
        TrackKind::Text => true,
        _ => false,
    };
    match tags {
        Some(t) => {
            out.push(ReportLine::StreamHeader { kind, index });
            if !is_text {
                match &t.codec {
                    Some(c) => {
                        out.push(ReportLine::Codec(c.clone()));
                    },
                    None => {},
                }
            }
            if !is_video {
                match &t.language {
                    Some(l) => {
                        out.push(ReportLine::Language(l.clone()));
                    },
                    None => {},
                }
            }
            if is_audio {
                match t.bitrate {
                    Some(b) => {
                        out.push(ReportLine::Bitrate(b));
                    },
                    None => {},
                }
            }
        },
        None => {
            if is_text && notes {
                out.push(ReportLine::NoTags);
            }
        },
    }
    assert(out@ =~= old(out)@ + stream_lines(kind, index, *tags, binding));
}

fn push_kind_lines(
    out: &mut Vec<ReportLine>,
    kind: TrackKind,
    entries: &Vec<Option<StreamTags>>,
    binding: DigitBinding,
)
    ensures
        final(out)@ == old(out)@ + kind_lines(kind, entries@, binding),
{
    let mut i: usize = 0;
    assert(out@ =~= old(out)@ + kind_lines(kind, entries@.take(0), binding));
    while i < entries.len()
        invariant
            i <= entries.len(),
            out@ == old(out)@ + kind_lines(kind, entries@.take(i as int), binding),
        decreases entries.len() - i,
    {
        push_stream_lines(out, kind, i, &entries[i], binding);
        proof {
            let next = entries@.take(i + 1);
            assert(next.drop_last() =~= entries@.take(i as int));
            assert(next.last() == entries@[i as int]);
            assert(out@ =~= old(out)@ + kind_lines(kind, next, binding));
        }
        i += 1;
    }
    assert(entries@.take(i as int) =~= entries@);
}

/// The lines of the stream analysis report.
pub fn analysis_report(survey: &StreamSurvey, binding: DigitBinding) -> (r: Vec<ReportLine>)
    ensures
        r@ == report_lines(*survey, binding),
{
    let mut out: Vec<ReportLine> = Vec::new();
    out.push(
        ReportLine::Counts {
            n_video: survey.video.len(),
            n_audio: survey.audio.len(),
            n_text: survey.text.len(),
        },
    );
    push_kind_lines(&mut out, TrackKind::Video, &survey.video, binding);
    push_kind_lines(&mut out, TrackKind::Audio, &survey.audio, binding);
    push_kind_lines(&mut out, TrackKind::Text, &survey.text, binding);
    out.push(
        ReportLine::Current {
            video: survey.current_video,
            audio: survey.current_audio,
            text: survey.current_text,
        },
    );
    out.push(ReportLine::Prompt(binding));
    assert(out@ =~= report_lines(*survey, binding));
    out
}

} // verus!
