//! The image-decode slots: a raw container-input buffer, the decoded
//! single-channel image, and the last decode error message.
//!
//! The container format itself is parsed by an external decoder; this module
//! owns everything around that call: the slot contents, the mapping of the
//! decoder's outcome into the image and error slots, and the host-facing
//! size accessors with their sentinel conventions.

use vstd::prelude::*;
use crate::slot_bytes;

verus! {

/// One decoded single-channel image: the channel's samples in the
/// container's traversal order, plus the display-window geometry the
/// container reported. Each sample is the 32-bit pattern of one
/// single-precision value; the module never interprets it numerically.
pub struct DecodedImage {
    /// Channel samples, one 32-bit pattern per pixel.
    pub data: Vec<u32>,
    /// Display-window horizontal position.
    pub pos_x: i32,
    /// Display-window vertical position.
    pub pos_y: i32,
    /// Display-window width in pixels.
    pub width: usize,
    /// Display-window height in pixels.
    pub height: usize,
}

impl DecodedImage {
    /// A fully populated image carries exactly one sample per pixel of its
    /// reported size.
    pub open spec fn wf(self) -> bool {
        self.data@.len() == self.width * self.height
    }
}

/// The decoder's failure categories, as this library stores them.
pub enum DecodeError {
    /// The decoder gave up before the read finished.
    Aborted,
    /// Reading the buffered input failed.
    Io,
    /// The container uses a feature the decoder does not support; carries
    /// the decoder's own message.
    NotSupported(String),
    /// The input is not a valid container, or lacks the required channel;
    /// carries the decoder's own message.
    Invalid(String),
}

/// The message recorded in the error slot for each failure category: a
/// fixed string for an aborted read and for a read failure, the decoder's
/// own message otherwise.
pub open spec fn error_message(e: DecodeError) -> Seq<char> {
    match e {
        DecodeError::Aborted => "Aborted"@,
        DecodeError::Io => "I/O Error"@,
        DecodeError::NotSupported(m) => m@,
        DecodeError::Invalid(m) => m@,
    }
}

/// Overwrite the error slot with `emsg`: afterwards the slot holds exactly
/// that message, whatever it held before.
pub fn _exr_set_err(err: &mut Option<String>, emsg: &str)
    ensures
        *final(err) is Some,
        ((*final(err))->0)@ == emsg@,
{
    *err = Some(emsg.to_owned());
}

/// Record a decode failure: the error slot afterwards holds the message
/// for `e`'s category, replacing any previous message.
pub fn exr_set_err(err: &mut Option<String>, e: DecodeError)
    ensures
        *final(err) is Some,
        ((*final(err))->0)@ == error_message(e),
{
    match e {
        DecodeError::Aborted => _exr_set_err(err, "Aborted"),
        DecodeError::NotSupported(msg) => _exr_set_err(err, msg.as_str()),
        DecodeError::Invalid(msg) => _exr_set_err(err, msg.as_str()),
        DecodeError::Io => _exr_set_err(err, "I/O Error"),
    }
}

/// Length of the message the error slot holds, counted in characters (the
/// decoder's messages are plain ASCII, where this is also the byte count);
/// an empty slot reads as length zero, so a host can tell "no message"
/// from "a message".
pub open spec fn msg_len(err: Option<String>) -> nat {
    match err {
        Some(s) => s@.len(),
        None => 0,
    }
}

/// Length of the current error message, zero if none was ever recorded.
pub fn _exr_msg_sz(err: &Option<String>) -> (r: usize)
    ensures
        r == msg_len(*err),
{
    match err {
        Some(s) => s.as_str().unicode_len(),
        None => 0,
    }
}

/// Host-facing length of the current error message: the length, or the
/// sentinel `-1` if it does not fit the host's signed integer width.
pub fn exr_msg_sz(err: &Option<String>) -> (r: i32)
    ensures
        msg_len(*err) <= i32::MAX ==> r == msg_len(*err),
        msg_len(*err) > i32::MAX ==> r == -1,
{
    let n: usize = _exr_msg_sz(err);
    if n <= i32::MAX as usize {
        n as i32
    } else {
        -1
    }
}

/// Size of the decoded image the slot holds; an empty slot reads as 0x0.
pub fn _exr_size(img: &Option<DecodedImage>) -> (r: (usize, usize))
    ensures
        r == match *img {
            Some(i) => (i.width, i.height),
            None => (0usize, 0usize),
        },
{
    match img {
        Some(i) => (i.width, i.height),
        None => (0, 0),
    }
}

/// The host-facing code for one size component: the component itself, or
/// the sentinel `-1` when no image is present or the component does not
/// fit the host's signed integer width.
pub open spec fn size_code(component: Option<nat>) -> int {
    match component {
        Some(n) => if n <= i32::MAX { n as int } else { -1 },
        None => -1,
    }
}

/// Width of the decoded image, or `-1` if absent or too large.
pub fn exr_width(img: &Option<DecodedImage>) -> (r: i32)
    ensures
        r == size_code(match *img {
            Some(i) => Some(i.width as nat),
            None => None,
        }),
{
    match img {
        Some(i) => {
            if i.width <= i32::MAX as usize {
                i.width as i32
            } else {
                -1
            }
        },
        None => -1,
    }
}

/// Height of the decoded image, or `-1` if absent or too large.
pub fn exr_height(img: &Option<DecodedImage>) -> (r: i32)
    ensures
        r == size_code(match *img {
            Some(i) => Some(i.height as nat),
            None => None,
        }),
{
    match img {
        Some(i) => {
            if i.height <= i32::MAX as usize {
                i.height as i32
            } else {
                -1
            }
        },
        None => -1,
    }
}

/// Contents of the container input slot after a reset to `sz`, as a
/// function of the previous contents: the common prefix is kept and any
/// newly exposed byte is zero.
pub open spec fn exr_reset_bytes(prev: Seq<u8>, sz: nat) -> Seq<u8> {
    Seq::new(sz, |i: int| if i < prev.len() { prev[i] } else { 0u8 })
}

/// Resize the container input slot to `sz`: existing bytes up to `sz` are
/// kept and any newly exposed byte is zero.
pub fn _exr_reset(o: &mut Option<Vec<u8>>, sz: usize) -> (r: usize)
    ensures
        r == sz,
        *final(o) is Some,
        ((*final(o))->0)@ == exr_reset_bytes(slot_bytes(*old(o)), sz as nat),
{
    let mut v: Vec<u8> = match o.take() {
        Some(v) => v,
        None => Vec::with_capacity(sz),
    };
    v.resize(sz, 0u8);
    let n: usize = v.len();
    proof {
        assert(v@ =~= exr_reset_bytes(slot_bytes(*old(o)), sz as nat));
    }
    *o = Some(v);
    n
}

/// Host-facing resize of the container input slot: a negative size is
/// rejected with the sentinel `-1` and the slot is untouched; otherwise
/// the prefix-preserving, zero-filling resize runs and `sz` is returned.
pub fn exr_reset(o: &mut Option<Vec<u8>>, sz: i32) -> (r: i32)
    ensures
        sz < 0 ==> r == -1 && *final(o) == *old(o),
        sz >= 0 ==> {
            &&& r == sz
            &&& *final(o) is Some
            &&& ((*final(o))->0)@ == exr_reset_bytes(slot_bytes(*old(o)), sz as nat)
        },
{
    if sz < 0 {
        return -1;
    }
    let u: usize = sz as usize;
    let n: usize = _exr_reset(o, u);
    n as i32
}

/// Install a freshly decoded image in the image slot, replacing whatever
/// was there: pixels, position and size change together as one unit.
/// Returns the stored pixel count.
pub fn chan2img32f(slot: &mut Option<DecodedImage>, img: DecodedImage) -> (r: usize)
    ensures
        *final(slot) is Some,
        (*final(slot))->0 == img,
        r == img.data@.len(),
{
    let n: usize = img.data.len();
    *slot = Some(img);
    n
}

/// The pixel count as the host sees it: the count itself, or the sentinel
/// `-1` when it does not fit the host's signed integer width.
pub open spec fn count_code(n: nat) -> int {
    if n <= i32::MAX {
        n as int
    } else {
        -1
    }
}

/// Settle one decode attempt on the luminance channel. On success the
/// image slot is atomically replaced with the decoded image and the error
/// slot is left exactly as it was; the pixel count comes back. On failure
/// the image slot keeps its previous contents, the failure's message
/// replaces the error slot's contents, and the sentinel `-1` comes back.
///
/// The two halves are also available separately (`chan2img32f`,
/// `exr_set_err`) for a caller that holds the error slot's lock only on
/// the failing path.
pub fn y2img32f(
    img_slot: &mut Option<DecodedImage>,
    err_slot: &mut Option<String>,
    outcome: Result<DecodedImage, DecodeError>,
) -> (r: i32)
    ensures
        outcome matches Ok(img) ==> {
            &&& *final(img_slot) is Some
            &&& (*final(img_slot))->0 == img
            &&& *final(err_slot) == *old(err_slot)
            &&& r == count_code(img.data@.len())
        },
        outcome matches Err(e) ==> {
            &&& *final(img_slot) == *old(img_slot)
            &&& *final(err_slot) is Some
            &&& ((*final(err_slot))->0)@ == error_message(e)
            &&& r == -1
        },
{
    match outcome {
        Ok(img) => {
            let n: usize = chan2img32f(img_slot, img);
            if n <= i32::MAX as usize {
                n as i32
            } else {
                -1
            }
        },
        Err(e) => {
            exr_set_err(err_slot, e);
            -1
        },
    }
}

/// A successful decode of a well-formed image whose geometry fits the
/// host's integer width reports consistent values: the count the decode
/// returns is exactly width times height, and the two size accessors
/// report those same sides.
pub proof fn lemma_decode_success_geometry(img: DecodedImage)
    requires
        img.wf(),
        img.width <= i32::MAX,
        img.height <= i32::MAX,
        img.width * img.height <= i32::MAX,
    ensures
        count_code(img.data@.len()) == img.width * img.height,
        size_code(Some(img.width as nat)) == img.width,
        size_code(Some(img.height as nat)) == img.height,
{
}

/// Every failing decode leaves a readable explanation: the recorded
/// message is non-empty for the fixed-string categories, and exactly the
/// decoder's own words otherwise, so it is non-empty whenever the decoder
/// said anything at all.
pub proof fn lemma_failure_message_nonempty(e: DecodeError)
    requires
        match e {
            DecodeError::Aborted => true,
            DecodeError::Io => true,
            DecodeError::NotSupported(m) => m@.len() > 0,
            DecodeError::Invalid(m) => m@.len() > 0,
        },
    ensures
        error_message(e).len() > 0,
{
    reveal_strlit("Aborted");
    reveal_strlit("I/O Error");
}

/// Resizing the container input slot to the same size twice without
/// intervening writes leaves the observable contents unchanged.
pub proof fn lemma_exr_reset_idempotent(prev: Seq<u8>, sz: nat)
    ensures
        exr_reset_bytes(exr_reset_bytes(prev, sz), sz) == exr_reset_bytes(prev, sz),
        exr_reset_bytes(prev, sz).len() == sz,
{
    assert(exr_reset_bytes(exr_reset_bytes(prev, sz), sz) =~= exr_reset_bytes(prev, sz));
}

} // verus!
