use vstd::prelude::*;

verus! {

/// Compression declared by a movie's container header.
#[derive(Clone, Copy, Debug, PartialEq, Eq, Structural)]
pub enum Compression {
    Uncompressed,
    Zlib,
    Lzma,
}

/// Stage bounds in twips (1/20 of a pixel).
#[derive(Clone, Copy, Debug, PartialEq, Eq, Structural)]
pub struct StageRect {
    pub x_min: i32,
    pub y_min: i32,
    pub x_max: i32,
    pub y_max: i32,
}

impl StageRect {
    /// Every coordinate lies in `[-2^30, 2^30)`, so that each fits in the
    /// 31 signed bits that the container's rectangle encoding allows.
    pub open spec fn fits_encoding(self) -> bool {
        &&& -0x4000_0000 <= self.x_min < 0x4000_0000
        &&& -0x4000_0000 <= self.y_min < 0x4000_0000
        &&& -0x4000_0000 <= self.x_max < 0x4000_0000
        &&& -0x4000_0000 <= self.y_max < 0x4000_0000
    }
}

/// The fields of a movie's container header.
#[derive(Clone, Copy, Debug, PartialEq, Eq, Structural)]
pub struct MovieHeader {
    pub compression: Compression,
    pub version: u8,
    pub stage_size: StageRect,
    /// Frame rate as 8.8 fixed-point bits.
    pub frame_rate: i16,
    pub num_frames: u16,
}

impl MovieHeader {
    /// The same header with its compression set to `Uncompressed`.
    pub open spec fn uncompressed_spec(self) -> MovieHeader {
        MovieHeader { compression: Compression::Uncompressed, ..self }
    }

    pub fn uncompressed(&self) -> (r: MovieHeader)
        ensures
            r == self.uncompressed_spec(),
    {
        MovieHeader {
            compression: Compression::Uncompressed,
            version: self.version,
            stage_size: self.stage_size,
            frame_rate: self.frame_rate,
            num_frames: self.num_frames,
        }
    }
}

/// Which virtual machine a movie's scripts target.
#[derive(Clone, Copy, Debug, PartialEq, Eq, Structural)]
pub enum AvmType {
    Avm1,
    Avm2,
}

/// Handle of a display-tree node owned by the host.
#[derive(Clone, Copy, Debug, PartialEq, Eq, Structural)]
pub struct ContentRef {
    pub id: u64,
}

/// Handle of an application domain owned by the host.
#[derive(Clone, Copy, Debug, PartialEq, Eq, Structural)]
pub struct DomainRef {
    pub id: u64,
}

/// A decoded movie: its header, its tag data and where it came from.
#[derive(Clone, Debug)]
pub struct Movie {
    pub header: MovieHeader,
    /// Size of the source bytes as loaded, possibly compressed.
    pub compressed_length: u32,
    /// The decoded tag stream, without the container header.
    pub data: Vec<u8>,
    pub url: Option<String>,
    pub loader_url: Option<String>,
    /// Movie parameters as key/value pairs; keys are unique.
    pub parameters: Vec<(String, String)>,
    pub avm_type: AvmType,
}

/// The view of a list of string pairs.
pub open spec fn pairs_view(p: Seq<(String, String)>) -> Seq<(Seq<char>, Seq<char>)> {
    p.map_values(|e: (String, String)| (e.0@, e.1@))
}

/// The keys of a list of pairs.
pub open spec fn key_set(p: Seq<(Seq<char>, Seq<char>)>) -> Set<Seq<char>> {
    Set::new(|k: Seq<char>| exists|i: int| 0 <= i < p.len() && #[trigger] p[i].0 == k)
}

/// No key occurs twice.
pub open spec fn keys_unique(p: Seq<(Seq<char>, Seq<char>)>) -> bool {
    forall|i: int, j: int| 0 <= i < j < p.len() ==> #[trigger] p[i].0 != #[trigger] p[j].0
}

impl Movie {
    pub open spec fn params_view(&self) -> Seq<(Seq<char>, Seq<char>)> {
        pairs_view(self.parameters@)
    }

    /// A well-formed movie has no duplicate parameter keys.
    pub open spec fn wf(&self) -> bool {
        keys_unique(self.params_view())
    }
}

/// A loaded movie together with what the host resolved for it.
#[derive(Clone, Debug)]
pub struct SwfSource {
    pub movie: Movie,
    /// Root of the loaded content.
    pub root: ContentRef,
    /// Application domain resolved for this movie.
    pub domain: DomainRef,
}

/// Which content a loader-info object describes.
#[derive(Clone, Debug)]
pub enum LoaderStream {
    /// The implicit top-level content.
    Stage,
    /// A movie that was loaded explicitly.
    Swf(SwfSource),
}

/// What the host knows of the top-level content.
#[derive(Clone, Copy, Debug)]
pub struct StageContext {
    /// Compressed length of the top-level container.
    pub compressed_length: u32,
    pub stage_root: ContentRef,
    pub global_domain: DomainRef,
}

/// A property of a loader-info object.
#[derive(Clone, Copy, Debug, PartialEq, Eq, Structural)]
pub enum Property {
    ActionScriptVersion,
    FrameRate,
    Height,
    Width,
    SwfVersion,
    Url,
    LoaderUrl,
    Parameters,
    Bytes,
}

/// Failures of loader-info operations.
#[derive(Clone, Copy, Debug, PartialEq, Eq, Structural)]
pub enum LoaderInfoError {
    /// Scripts may not construct a loader-info object.
    ConstructionForbidden,
    /// The property exists only for a loaded movie.
    StageUnsupported(Property),
    /// The container writer's output broke the assumptions of the rebuild.
    InternalReconstructionInvariantViolated,
}

/// A length in twips, the unit of the stage rectangle.
#[derive(Clone, Copy, Debug, PartialEq, Eq, Structural)]
pub struct Pixels {
    pub twips: i64,
}

impl Pixels {
    /// Whole pixels (rounded down) and the remaining twips.
    pub fn whole_and_twips(&self) -> (r: (i64, i64))
        requires
            self.twips > i64::MIN,
        ensures
            r.0 * 20 + r.1 == self.twips,
            0 <= r.1 < 20,
    {
        let t = self.twips;
        if t >= 0 {
            let q = t / 20;
            let m = t % 20;
            (q, m)
        } else {
            let n = -t;
            let q = n / 20;
            let m = n % 20;
            if m == 0 {
                (-q, 0)
            } else {
                (-q - 1, 20 - m)
            }
        }
    }
}

} // verus!
