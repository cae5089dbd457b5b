use vstd::prelude::*;

use crate::media::{ConversionError, FormatTag};

verus! {

/// Ceiling on the declared input size: 10 MiB. Anything larger is rejected
/// before any download or transcoding work happens.
pub const MAX_INPUT_SIZE: u32 = 10 * 1024 * 1024;

/// What the source protocol declared an attachment to be.
#[derive(Clone, Copy, Debug, PartialEq, Eq, Structural)]
pub enum MediaKind {
    /// A plain still-image attachment.
    Photo,
    /// A generic file attachment of unknown content.
    Document,
    /// An attachment explicitly tagged as an animation / looping clip.
    Animation,
}

/// One inbound attachment, as the transport hands it over: the declared size
/// in bytes, the declared kind, and the declared file name (UTF-8 bytes), if
/// any. The router never looks at file contents.
pub struct MediaRequest {
    pub declared_size: u32,
    pub kind: MediaKind,
    pub declared_name: Option<Vec<u8>>,
}

/// Which transcoder a request is dispatched to.
#[derive(Clone, Copy, Debug, PartialEq, Eq, Structural)]
pub enum Route {
    Still,
    Clip,
}

/// `name` ends in ".gif" (the looping-image suffix the router recognizes).
pub open spec fn gif_named(name: Seq<u8>) -> bool {
    &&& name.len() >= 4
    &&& name[name.len() - 4] == 46u8
    &&& name[name.len() - 3] == 103u8
    &&& name[name.len() - 2] == 105u8
    &&& name[name.len() - 1] == 102u8
}

/// The classification rule: an attachment is a clip exactly when the protocol
/// tagged it as an animation, or when it is a generic file whose declared name
/// ends in ".gif". Everything else, photos included, is a still image.
pub open spec fn is_clip_request(req: MediaRequest) -> bool {
    ||| req.kind is Animation
    ||| (req.kind is Document && match req.declared_name {
        Some(n) => gif_named(n@),
        None => false,
    })
}

/// Declared-name check behind the classification rule.
pub fn has_gif_suffix(name: &Vec<u8>) -> (r: bool)
    ensures
        r == gif_named(name@),
{
    let n = name.len();
    n >= 4 && name[n - 4] == 46 && name[n - 3] == 103 && name[n - 2] == 105 && name[n - 1] == 102
}

/// Size gate and dispatch decision, taken before any download or transcoding:
/// a request over the ceiling is refused as `TooLarge`; an admitted request is
/// routed by the declared kind and name alone.
pub fn plan_request(req: &MediaRequest) -> (r: Result<Route, ConversionError>)
    ensures
        r is Err <==> req.declared_size > MAX_INPUT_SIZE,
        r matches Err(e) ==> e == ConversionError::TooLarge,
        r matches Ok(route) ==> (route == Route::Clip <==> is_clip_request(*req)),
{
    if req.declared_size > MAX_INPUT_SIZE {
        return Err(ConversionError::TooLarge);
    }
    let clip = match req.kind {
        MediaKind::Animation => true,
        MediaKind::Document => match &req.declared_name {
            Some(name) => has_gif_suffix(name),
            None => false,
        },
        MediaKind::Photo => false,
    };
    if clip {
        Ok(Route::Clip)
    } else {
        Ok(Route::Still)
    }
}

/// One offered variant of a photo attachment: its declared dimensions.
#[derive(Clone, Copy, Debug, PartialEq, Eq, Structural)]
pub struct PhotoVariant {
    pub width: u32,
    pub height: u32,
}

/// A variant already big enough that fitting it into the 512x512 box never
/// enlarges it.
pub open spec fn big_enough(p: PhotoVariant) -> bool {
    p.width >= 512 || p.height >= 512
}

/// Picks which of the offered photo variants to download: the first one with
/// a dimension of at least 512, and the last one when none is that big.
/// Returns its index, or `None` when nothing is offered.
pub fn pick_photo_variant(sizes: &Vec<PhotoVariant>) -> (r: Option<usize>)
    ensures
        r is None <==> sizes@.len() == 0,
        r matches Some(i) ==> i < sizes@.len(),
        r matches Some(i) ==> ({
            ||| (big_enough(sizes@[i as int]) && forall|j: int|
                0 <= j < i ==> !big_enough(#[trigger] sizes@[j]))
            ||| (i == sizes@.len() - 1 && forall|j: int|
                0 <= j < sizes@.len() ==> !big_enough(#[trigger] sizes@[j]))
        }),
{
    let n = sizes.len();
    if n == 0 {
        return None;
    }
    let mut k: usize = 0;
    while k < n
        invariant
            n == sizes@.len(),
            k <= n,
            forall|j: int| 0 <= j < k ==> !big_enough(#[trigger] sizes@[j]),
        decreases n - k,
    {
        if sizes[k].width >= 512 || sizes[k].height >= 512 {
            return Some(k);
        }
        k = k + 1;
    }
    Some(n - 1)
}

/// What the finished asset is to be called: the declared name, if one came
/// with the attachment, serves as the stem, a default stem otherwise; a dot
/// and the extension of the encoding actually used are appended.
pub open spec fn output_name_spec(declared: Option<Vec<u8>>, tag: FormatTag) -> Seq<u8> {
    let stem = match declared {
        Some(n) => n@,
        None => seq![111u8, 117u8, 116u8],
    };
    stem + seq![46u8] + tag.ext_spec()
}

/// Composes the outgoing file name from the declared name and the format tag;
/// file contents play no part in it.
pub fn compose_output_name(declared_name: &Option<Vec<u8>>, tag: FormatTag) -> (r: Vec<u8>)
    ensures
        r@ == output_name_spec(*declared_name, tag),
{
    let mut out: Vec<u8> = match declared_name {
        Some(n) => n.clone(),
        None => {
            let mut v: Vec<u8> = Vec::new();
            v.push(111);
            v.push(117);
            v.push(116);
            v
        }
    };
    proof {
        assert(out@ =~= (match *declared_name {
            Some(n) => n@,
            None => seq![111u8, 117u8, 116u8],
        }));
    }
    out.push(46);
    let mut ext = tag.extension();
    out.append(&mut ext);
    proof {
        assert(out@ =~= output_name_spec(*declared_name, tag));
    }
    out
}

} // verus!
