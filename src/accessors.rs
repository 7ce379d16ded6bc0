use crate::container::{rebuild_container, rebuild_succeeds, rebuilt_as, ByteArray};
use crate::model::{
    key_set, keys_unique, pairs_view, AvmType, ContentRef, DomainRef, LoaderInfoError,
    LoaderStream, Movie, Pixels, Property, StageContext,
};
use vstd::prelude::*;

verus! {

/// `actionScriptVersion` of a movie whose scripts target AVM1.
pub const ACTIONSCRIPT2: u8 = 2;

/// `actionScriptVersion` of a movie whose scripts target AVM2.
pub const ACTIONSCRIPT3: u8 = 3;

/// The content type reported for a loaded movie.
pub const SWF_CONTENT_TYPE: &'static str = "application/x-shockwave-flash";

/// The failure for reading `p` on the stage's loader info.
pub open spec fn stage_error(p: Property) -> LoaderInfoError {
    LoaderInfoError::StageUnsupported(p)
}

/// The view of an optional string.
pub open spec fn opt_view(o: Option<String>) -> Option<Seq<char>> {
    match o {
        Some(s) => Some(s@),
        None => None,
    }
}

/// The first present string of the two, else the empty string.
pub open spec fn first_or_empty(a: Option<Seq<char>>, b: Option<Seq<char>>) -> Seq<char> {
    match a {
        Some(s) => s,
        None => match b {
            Some(s) => s,
            None => Seq::empty(),
        },
    }
}

/// The ActionScript version that a virtual machine type stands for.
pub open spec fn action_script_version_of(t: AvmType) -> u8 {
    match t {
        AvmType::Avm1 => ACTIONSCRIPT2,
        AvmType::Avm2 => ACTIONSCRIPT3,
    }
}

fn clone_or_empty(o: &Option<String>) -> (r: String)
    ensures
        r@ == first_or_empty(opt_view(*o), None),
{
    match o {
        Some(s) => s.clone(),
        None => String::new(),
    }
}

/// Scripts cannot construct a loader-info object.
pub fn instance_init() -> (r: Result<(), LoaderInfoError>)
    ensures
        r == Err::<(), LoaderInfoError>(LoaderInfoError::ConstructionForbidden),
{
    Err(LoaderInfoError::ConstructionForbidden)
}

/// The class initializer has nothing to set up.
pub fn class_init() -> (r: Result<(), LoaderInfoError>)
    ensures
        r is Ok,
{
    Ok(())
}

/// `actionScriptVersion`: 2 for an AVM1 movie, 3 for an AVM2 movie.
pub fn action_script_version(stream: &LoaderStream) -> (r: Result<u8, LoaderInfoError>)
    ensures
        stream is Stage ==> r == Err::<u8, LoaderInfoError>(
            stage_error(Property::ActionScriptVersion),
        ),
        stream matches LoaderStream::Swf(s) ==> r == Ok::<u8, LoaderInfoError>(
            action_script_version_of(s.movie.avm_type),
        ),
{
    match stream {
        LoaderStream::Stage => Err(LoaderInfoError::StageUnsupported(Property::ActionScriptVersion)),
        LoaderStream::Swf(s) => match s.movie.avm_type {
            AvmType::Avm1 => Ok(ACTIONSCRIPT2),
            AvmType::Avm2 => Ok(ACTIONSCRIPT3),
        },
    }
}

/// `applicationDomain`: the global domain for the stage, else the movie's own.
pub fn application_domain(ctx: &StageContext, stream: &LoaderStream) -> (r: DomainRef)
    ensures
        stream is Stage ==> r == ctx.global_domain,
        stream matches LoaderStream::Swf(s) ==> r == s.domain,
{
    match stream {
        LoaderStream::Stage => ctx.global_domain,
        LoaderStream::Swf(s) => s.domain,
    }
}

/// `bytesTotal`: the compressed length of the described container.
pub fn bytes_total(ctx: &StageContext, stream: &LoaderStream) -> (r: u32)
    ensures
        stream is Stage ==> r == ctx.compressed_length,
        stream matches LoaderStream::Swf(s) ==> r == s.movie.compressed_length,
{
    match stream {
        LoaderStream::Stage => ctx.compressed_length,
        LoaderStream::Swf(s) => s.movie.compressed_length,
    }
}

/// `bytesLoaded`: loads are not streamed, so this equals `bytesTotal`.
pub fn bytes_loaded(ctx: &StageContext, stream: &LoaderStream) -> (r: u32)
    ensures
        stream is Stage ==> r == ctx.compressed_length,
        stream matches LoaderStream::Swf(s) ==> r == s.movie.compressed_length,
{
    bytes_total(ctx, stream)
}

/// `content`: the root of the described content.
pub fn content(ctx: &StageContext, stream: &LoaderStream) -> (r: ContentRef)
    ensures
        stream is Stage ==> r == ctx.stage_root,
        stream matches LoaderStream::Swf(s) ==> r == s.root,
{
    match stream {
        LoaderStream::Stage => ctx.stage_root,
        LoaderStream::Swf(s) => s.root,
    }
}

/// `contentType`: null for the stage, the SWF media type for a movie.
pub fn content_type(stream: &LoaderStream) -> (r: Option<&'static str>)
    ensures
        stream is Stage ==> r is None,
        stream is Swf ==> (r matches Some(t) && t@ == SWF_CONTENT_TYPE@),
{
    match stream {
        LoaderStream::Stage => None,
        LoaderStream::Swf(_) => Some(SWF_CONTENT_TYPE),
    }
}

/// `frameRate`: the header's frame rate, as 8.8 fixed-point bits.
pub fn frame_rate(stream: &LoaderStream) -> (r: Result<i16, LoaderInfoError>)
    ensures
        stream is Stage ==> r == Err::<i16, LoaderInfoError>(stage_error(Property::FrameRate)),
        stream matches LoaderStream::Swf(s) ==> r == Ok::<i16, LoaderInfoError>(
            s.movie.header.frame_rate,
        ),
{
    match stream {
        LoaderStream::Stage => Err(LoaderInfoError::StageUnsupported(Property::FrameRate)),
        LoaderStream::Swf(s) => Ok(s.movie.header.frame_rate),
    }
}

/// `height`: the stage rectangle's vertical extent.
pub fn height(stream: &LoaderStream) -> (r: Result<Pixels, LoaderInfoError>)
    ensures
        stream is Stage ==> r == Err::<Pixels, LoaderInfoError>(stage_error(Property::Height)),
        stream matches LoaderStream::Swf(s) ==> (r matches Ok(p) && p.twips
            == s.movie.header.stage_size.y_max - s.movie.header.stage_size.y_min),
{
    match stream {
        LoaderStream::Stage => Err(LoaderInfoError::StageUnsupported(Property::Height)),
        LoaderStream::Swf(s) => {
            let r = &s.movie.header.stage_size;
            Ok(Pixels { twips: r.y_max as i64 - r.y_min as i64 })
        },
    }
}

/// `width`: the stage rectangle's horizontal extent.
pub fn width(stream: &LoaderStream) -> (r: Result<Pixels, LoaderInfoError>)
    ensures
        stream is Stage ==> r == Err::<Pixels, LoaderInfoError>(stage_error(Property::Width)),
        stream matches LoaderStream::Swf(s) ==> (r matches Ok(p) && p.twips
            == s.movie.header.stage_size.x_max - s.movie.header.stage_size.x_min),
{
    match stream {
        LoaderStream::Stage => Err(LoaderInfoError::StageUnsupported(Property::Width)),
        LoaderStream::Swf(s) => {
            let r = &s.movie.header.stage_size;
            Ok(Pixels { twips: r.x_max as i64 - r.x_min as i64 })
        },
    }
}

/// `isURLInaccessible`: always false.
pub fn is_url_inaccessible(_stream: &LoaderStream) -> (r: bool)
    ensures
        !r,
{
    false
}

/// `swfVersion`: the header's version.
pub fn swf_version(stream: &LoaderStream) -> (r: Result<u8, LoaderInfoError>)
    ensures
        stream is Stage ==> r == Err::<u8, LoaderInfoError>(stage_error(Property::SwfVersion)),
        stream matches LoaderStream::Swf(s) ==> r == Ok::<u8, LoaderInfoError>(
            s.movie.header.version,
        ),
{
    match stream {
        LoaderStream::Stage => Err(LoaderInfoError::StageUnsupported(Property::SwfVersion)),
        LoaderStream::Swf(s) => Ok(s.movie.header.version),
    }
}

/// `url`: the movie's url, or the empty string when it has none.
pub fn url(stream: &LoaderStream) -> (r: Result<String, LoaderInfoError>)
    ensures
        stream is Stage ==> (r matches Err(e) && e == stage_error(Property::Url)),
        stream matches LoaderStream::Swf(s) ==> (r matches Ok(u) && u@ == first_or_empty(opt_view(s.movie.url), None)),
{
    match stream {
        LoaderStream::Stage => Err(LoaderInfoError::StageUnsupported(Property::Url)),
        LoaderStream::Swf(s) => Ok(clone_or_empty(&s.movie.url)),
    }
}

/// `loaderUrl`: the loader's url, else the movie's url, else the empty string.
pub fn loader_url(stream: &LoaderStream) -> (r: Result<String, LoaderInfoError>)
    ensures
        stream is Stage ==> (r matches Err(e) && e == stage_error(Property::LoaderUrl)),
        stream matches LoaderStream::Swf(s) ==> (r matches Ok(u) && u@ == first_or_empty(
            opt_view(s.movie.loader_url),
            opt_view(s.movie.url),
        )),
{
    match stream {
        LoaderStream::Stage => Err(LoaderInfoError::StageUnsupported(Property::LoaderUrl)),
        LoaderStream::Swf(s) => match &s.movie.loader_url {
            Some(u) => Ok(u.clone()),
            None => Ok(clone_or_empty(&s.movie.url)),
        },
    }
}

/// A fresh copy of a list of string pairs, in the same order.
pub fn copy_pairs(src: &Vec<(String, String)>) -> (r: Vec<(String, String)>)
    ensures
        pairs_view(r@) == pairs_view(src@),
{
    let mut out: Vec<(String, String)> = Vec::new();
    let mut i: usize = 0;
    while i < src.len()
        invariant
            i <= src@.len(),
            out@.len() == i,
            forall|j: int| 0 <= j < i ==> #[trigger] out@[j].0@ == src@[j].0@ && out@[j].1@ == src@[j].1@,
        decreases src@.len() - i,
    {
        let k = src[i].0.clone();
        let v = src[i].1.clone();
        out.push((k, v));
        i = i + 1;
    }
    assert(pairs_view(out@) =~= pairs_view(src@));
    out
}

/// `parameters`: a fresh key/value list holding the movie's parameters.
pub fn parameters(stream: &LoaderStream) -> (r: Result<Vec<(String, String)>, LoaderInfoError>)
    ensures
        stream is Stage ==> (r matches Err(e) && e == stage_error(Property::Parameters)),
        stream matches LoaderStream::Swf(s) ==> (r matches Ok(p) && pairs_view(p@)
            == s.movie.params_view()),
{
    match stream {
        LoaderStream::Stage => Err(LoaderInfoError::StageUnsupported(Property::Parameters)),
        LoaderStream::Swf(s) => Ok(copy_pairs(&s.movie.parameters)),
    }
}

/// The parameters handed out have the movie's keys, each exactly once.
pub proof fn lemma_parameters_keys(m: Movie, p: Seq<(String, String)>)
    requires
        m.wf(),
        pairs_view(p) == m.params_view(),
    ensures
        key_set(pairs_view(p)) == key_set(m.params_view()),
        keys_unique(pairs_view(p)),
        pairs_view(p).len() == key_set(pairs_view(p)).len(),
{
    lemma_unique_keys_count(pairs_view(p));
}

/// A list of pairs with unique keys has as many keys as entries.
pub proof fn lemma_unique_keys_count(s: Seq<(Seq<char>, Seq<char>)>)
    requires
        keys_unique(s),
    ensures
        key_set(s).len() == s.len(),
        key_set(s).finite(),
    decreases s.len(),
{
    if s.len() == 0 {
        assert(key_set(s) =~= Set::<Seq<char>>::empty());
    } else {
        let t = s.drop_last();
        assert(keys_unique(t));
        lemma_unique_keys_count(t);
        let k = s.last().0;
        assert(key_set(s) =~= key_set(t).insert(k)) by {
            assert forall|x: Seq<char>| key_set(s).contains(x) implies key_set(t).insert(k).contains(x) by {
                let i = choose|i: int| 0 <= i < s.len() && #[trigger] s[i].0 == x;
                if i < s.len() - 1 {
                    assert(t[i].0 == x);
                }
            }
            assert forall|x: Seq<char>| key_set(t).insert(k).contains(x) implies key_set(s).contains(x) by {
                if x == k {
                    assert(s[s.len() - 1].0 == x);
                } else {
                    let i = choose|i: int| 0 <= i < t.len() && #[trigger] t[i].0 == x;
                    assert(s[i].0 == x);
                }
            }
        }
        assert(!key_set(t).contains(k)) by {
            if key_set(t).contains(k) {
                let i = choose|i: int| 0 <= i < t.len() && #[trigger] t[i].0 == k;
                assert(s[i].0 == s[s.len() - 1].0);
            }
        }
    }
}

/// `bytes`: a rebuilt uncompressed container of the movie. For a movie it
/// fails only when the stage rectangle cannot be encoded or the total length
/// does not fit in 32 bits.
pub fn bytes(stream: &LoaderStream) -> (r: Result<ByteArray, LoaderInfoError>)
    ensures
        stream is Stage ==> (r matches Err(e) && e == stage_error(Property::Bytes)),
        stream matches LoaderStream::Swf(s) ==> (r is Ok <==> rebuild_succeeds(
            s.movie.header,
            s.movie.data@,
        )),
        stream matches LoaderStream::Swf(s) ==> (s.movie.header.stage_size.fits_encoding()
            && s.movie.data@.len() <= u32::MAX - 29 ==> r is Ok),
        stream matches LoaderStream::Swf(s) ==> (r matches Ok(b) ==> rebuilt_as(
            b,
            s.movie.header,
            s.movie.data@,
        )),
        stream matches LoaderStream::Swf(s) ==> (r matches Err(e)
            ==> e == LoaderInfoError::InternalReconstructionInvariantViolated),
{
    match stream {
        LoaderStream::Stage => Err(LoaderInfoError::StageUnsupported(Property::Bytes)),
        LoaderStream::Swf(s) => rebuild_container(&s.movie),
    }
}

} // verus!
