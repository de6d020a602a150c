//! What is done with one sampled frame: its presentation time, its raster,
//! the name and the bytes of its image, and the row that describes it.

use vstd::prelude::*;
use crate::error::FrameError;
use crate::identity::{StreamSession, StreamSessionView};
use crate::naming::{
    artifact_name,
    artifact_path,
    free_of_percent,
    get_current_str,
    name_of,
    path_under,
};
use crate::raster::{fits, jpeg_of, packed, rasterize};
use crate::timing::{presentation_seconds, seconds_of};

verus! {

/// The statement that stores one row. Its parameters are, in order, the
/// fields of a [`MetadataRecord`].
pub const INSERT_ROW: &'static str =
    "insert into pic(path, stream_url, uuid, project_uuid, organization_uuid, stream_md5, pts) values(?,?,?,?,?,?,?)";

/// A time base: the seconds that one unit of a decoder timestamp stands for.
#[derive(Clone, Copy, Debug, PartialEq, Eq)]
pub struct TimeBase {
    pub numerator: i32,
    pub denominator: i32,
}

/// A sampled frame as the controller announced it.
#[derive(Clone, Copy, Debug, PartialEq, Eq)]
pub struct Sampled {
    /// The frame's ordinal.
    pub ordinal: u128,
    /// Its timestamp, in units of the time base.
    pub pts: i64,
}

/// A frame as the converter left it: rows of RGB pixels, `stride` bytes apart.
#[derive(Clone, Copy, Debug)]
pub struct Converted<'a> {
    pub data: &'a [u8],
    pub stride: usize,
    pub width: u32,
    pub height: u32,
}

/// An encoded image and where it is to lie.
#[derive(Debug)]
pub struct Artifact {
    path: String,
    jpeg: Vec<u8>,
    width: u32,
    height: u32,
    seconds: i64,
}

/// The mathematical content of an [`Artifact`].
pub struct ArtifactView {
    pub path: Seq<char>,
    pub jpeg: Seq<u8>,
    pub width: nat,
    pub height: nat,
    pub seconds: int,
}

impl View for Artifact {
    type V = ArtifactView;

    closed spec fn view(&self) -> ArtifactView {
        ArtifactView {
            path: self.path@,
            jpeg: self.jpeg@,
            width: self.width as nat,
            height: self.height as nat,
            seconds: self.seconds as int,
        }
    }
}

/// The row that describes one processed frame. Rows are made by
/// [`Artifact::written`] alone, so each names an image that was written.
#[derive(Clone, Debug, PartialEq, Eq)]
pub struct MetadataRecord {
    path: String,
    stream_url: String,
    uuid: String,
    project_uuid: String,
    organization_uuid: String,
    stream_md5: String,
    pts: i64,
}

/// The mathematical content of a [`MetadataRecord`].
pub struct MetadataRecordView {
    pub path: Seq<char>,
    pub stream_url: Seq<char>,
    pub uuid: Seq<char>,
    pub project_uuid: Seq<char>,
    pub organization_uuid: Seq<char>,
    pub stream_md5: Seq<char>,
    pub pts: int,
}

impl View for MetadataRecord {
    type V = MetadataRecordView;

    closed spec fn view(&self) -> MetadataRecordView {
        MetadataRecordView {
            path: self.path@,
            stream_url: self.stream_url@,
            uuid: self.uuid@,
            project_uuid: self.project_uuid@,
            organization_uuid: self.organization_uuid@,
            stream_md5: self.stream_md5@,
            pts: self.pts as int,
        }
    }
}

/// The presentation time of `pts` in whole seconds, where there is one that
/// fits `i64`.
pub open spec fn seconds_in_range(pts: int, base: TimeBase) -> Option<int> {
    match seconds_of(pts, base.numerator as int, base.denominator as int) {
        Some(s) => if i64::MIN <= s <= i64::MAX {
            Some(s)
        } else {
            None
        },
        None => None,
    }
}

/// What becomes of a sampled frame, given the timestamp token that goes into
/// its name: the first failure among time, shape and encoding, or the image
/// with its path under `dump_path`.
pub open spec fn frame_plan(
    session: StreamSessionView,
    dump_path: Seq<char>,
    token: Seq<char>,
    sampled: Sampled,
    base: TimeBase,
    data: Seq<u8>,
    stride: nat,
    width: nat,
    height: nat,
) -> Result<ArtifactView, FrameError> {
    match seconds_in_range(sampled.pts as int, base) {
        None => Err(FrameError::TimeOutOfRange),
        Some(seconds) => if !fits(data.len(), stride, width, height) {
            Err(FrameError::ConversionFailed)
        } else {
            match jpeg_of(packed(data, stride, width, height), width, height) {
                None => Err(FrameError::EncodeFailed),
                Some(jpeg) => Ok(
                    ArtifactView {
                        path: path_under(
                            dump_path,
                            name_of(session.fingerprint, token, sampled.ordinal as nat),
                        ),
                        jpeg,
                        width,
                        height,
                        seconds,
                    },
                ),
            }
        },
    }
}

/// The row for an image of this session.
pub open spec fn row_for(session: StreamSessionView, artifact: ArtifactView) -> MetadataRecordView {
    MetadataRecordView {
        path: artifact.path,
        stream_url: session.url,
        uuid: session.uuid,
        project_uuid: session.project_uuid,
        organization_uuid: session.organization_uuid,
        stream_md5: session.fingerprint,
        pts: artifact.seconds,
    }
}

/// `outcome` is what `plan` says.
pub open spec fn follows(
    outcome: Result<Artifact, FrameError>,
    plan: Result<ArtifactView, FrameError>,
) -> bool {
    match outcome {
        Ok(artifact) => plan == Ok::<ArtifactView, FrameError>(artifact@),
        Err(error) => plan == Err::<ArtifactView, FrameError>(error),
    }
}

/// Turns a sampled and converted frame into its image, named with `token`.
pub fn compose_artifact(
    session: &StreamSession,
    dump_path: &str,
    token: &str,
    sampled: Sampled,
    base: TimeBase,
    frame: Converted<'_>,
) -> (outcome: Result<Artifact, FrameError>)
    ensures
        follows(
            outcome,
            frame_plan(
                session@,
                dump_path@,
                token@,
                sampled,
                base,
                frame.data@,
                frame.stride as nat,
                frame.width as nat,
                frame.height as nat,
            ),
        ),
{
    let seconds: i64 = match presentation_seconds(sampled.pts, base.numerator, base.denominator) {
        Some(seconds) => seconds,
        None => {
            return Err(FrameError::TimeOutOfRange);
        },
    };
    let raster = match rasterize(frame.data, frame.stride, frame.width, frame.height) {
        Ok(raster) => raster,
        Err(error) => {
            return Err(error);
        },
    };
    let jpeg: Vec<u8> = match raster.encode() {
        Ok(jpeg) => jpeg,
        Err(error) => {
            return Err(error);
        },
    };
    Ok(
        Artifact::assemble(
            session,
            dump_path,
            token,
            sampled.ordinal,
            seconds,
            frame.width,
            frame.height,
            jpeg,
        ),
    )
}

/// Turns a sampled and converted frame into its image, named after the
/// current local time: what [`compose_artifact`] gives for the token that the
/// clock yields, whatever that token is.
pub fn process_frame(
    session: &StreamSession,
    dump_path: &str,
    sampled: Sampled,
    base: TimeBase,
    frame: Converted<'_>,
) -> (outcome: Result<Artifact, FrameError>)
    ensures
        exists|token: Seq<char>|
            follows(
                outcome,
                #[trigger] frame_plan(
                    session@,
                    dump_path@,
                    token,
                    sampled,
                    base,
                    frame.data@,
                    frame.stride as nat,
                    frame.width as nat,
                    frame.height as nat,
                ),
            ),
{
    proof {
        reveal_strlit("");
        assert(free_of_percent(""@));
    }
    let token = get_current_str(Some(""));
    compose_artifact(session, dump_path, token.as_str(), sampled, base, frame)
}

impl Artifact {
    /// Gives an encoded image its place: the file named after the session's
    /// fingerprint, `token` and `ordinal`, under `dump_path`.
    pub fn assemble(
        session: &StreamSession,
        dump_path: &str,
        token: &str,
        ordinal: u128,
        seconds: i64,
        width: u32,
        height: u32,
        jpeg: Vec<u8>,
    ) -> (artifact: Artifact)
        ensures
            artifact@ == (ArtifactView {
                path: path_under(dump_path@, name_of(session@.fingerprint, token@, ordinal as nat)),
                jpeg: jpeg@,
                width: width as nat,
                height: height as nat,
                seconds: seconds as int,
            }),
    {
        let name = artifact_name(session.fingerprint(), token, ordinal);
        let path = artifact_path(dump_path, name.as_str());
        Artifact { path, jpeg, width, height, seconds }
    }

    /// Where the image is to be written.
    pub fn path(&self) -> (path: &str)
        ensures
            path@ == self@.path,
    {
        self.path.as_str()
    }

    /// The bytes of the JPEG file.
    pub fn jpeg(&self) -> (jpeg: &[u8])
        ensures
            jpeg@ == self@.jpeg,
    {
        self.jpeg.as_slice()
    }

    /// The width of the image in pixels.
    pub fn width(&self) -> (width: u32)
        ensures
            width == self@.width,
    {
        self.width
    }

    /// The height of the image in pixels.
    pub fn height(&self) -> (height: u32)
        ensures
            height == self@.height,
    {
        self.height
    }

    /// The presentation time of the frame, in seconds.
    pub fn seconds(&self) -> (seconds: i64)
        ensures
            seconds == self@.seconds,
    {
        self.seconds
    }

    /// Decides what follows the attempt to write the image. Written, the
    /// image gets its row, whose path is the image's path. Not written, it
    /// gets none, and the frame has failed with `IOWriteFailed`.
    pub fn written(&self, session: &StreamSession, written: bool) -> (row: Result<
        MetadataRecord,
        FrameError,
    >)
        ensures
            match row {
                Ok(record) => written && record@ == row_for(session@, self@),
                Err(error) => !written && error == FrameError::IOWriteFailed,
            },
    {
        if written {
            Ok(
                MetadataRecord {
                    path: self.path.clone(),
                    stream_url: session.url().to_owned(),
                    uuid: session.uuid().to_owned(),
                    project_uuid: session.project_uuid().to_owned(),
                    organization_uuid: session.organization_uuid().to_owned(),
                    stream_md5: session.fingerprint().to_owned(),
                    pts: self.seconds,
                },
            )
        } else {
            Err(FrameError::IOWriteFailed)
        }
    }
}

impl MetadataRecord {
    /// The path of the image.
    pub fn path(&self) -> (path: &str)
        ensures
            path@ == self@.path,
    {
        self.path.as_str()
    }

    /// The address of the stream.
    pub fn stream_url(&self) -> (stream_url: &str)
        ensures
            stream_url@ == self@.stream_url,
    {
        self.stream_url.as_str()
    }

    /// The subject's identifier.
    pub fn uuid(&self) -> (uuid: &str)
        ensures
            uuid@ == self@.uuid,
    {
        self.uuid.as_str()
    }

    /// The project's identifier.
    pub fn project_uuid(&self) -> (project_uuid: &str)
        ensures
            project_uuid@ == self@.project_uuid,
    {
        self.project_uuid.as_str()
    }

    /// The organization's identifier.
    pub fn organization_uuid(&self) -> (organization_uuid: &str)
        ensures
            organization_uuid@ == self@.organization_uuid,
    {
        self.organization_uuid.as_str()
    }

    /// The fingerprint of the stream's address.
    pub fn stream_md5(&self) -> (stream_md5: &str)
        ensures
            stream_md5@ == self@.stream_md5,
    {
        self.stream_md5.as_str()
    }

    /// The presentation time of the frame, in seconds.
    pub fn pts(&self) -> (pts: i64)
        ensures
            pts == self@.pts,
    {
        self.pts
    }
}

/// No orphan rows: the row of an image carries that image's path, the
/// session's identifiers and the frame's presentation time.
pub proof fn lemma_row_names_artifact(session: StreamSessionView, artifact: ArtifactView)
    ensures
        row_for(session, artifact).path == artifact.path,
        row_for(session, artifact).stream_url == session.url,
        row_for(session, artifact).stream_md5 == session.fingerprint,
        row_for(session, artifact).pts == artifact.seconds,
{
}

/// Deterministic naming: the path of an image depends on the output
/// directory, the fingerprint, the token and the ordinal alone, not on the
/// pixels or the time base.
pub proof fn lemma_path_deterministic(
    session: StreamSessionView,
    dump_path: Seq<char>,
    token: Seq<char>,
    sampled: Sampled,
    base: TimeBase,
    data: Seq<u8>,
    stride: nat,
    width: nat,
    height: nat,
)
    requires
        frame_plan(session, dump_path, token, sampled, base, data, stride, width, height) is Ok,
    ensures
        frame_plan(session, dump_path, token, sampled, base, data, stride, width, height)->Ok_0.path
            == path_under(dump_path, name_of(session.fingerprint, token, sampled.ordinal as nat)),
{
}

} // verus!
