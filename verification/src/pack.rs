use vstd::prelude::*;

use crate::imaging::{
    crop, cropped, decode_png, nearest_resized, placed, png_dimensions, png_header, png_pixels,
    replace, resize_nearest, rgba_len,
};
use crate::text::{
    before, decimal, decimal_text, lemma_before_irreflexive, lemma_before_transitive, same_bytes,
    same_text, text_before,
};
use std::path::PathBuf;

verus! {

/// One animation of a character pack: a horizontal strip (or atlas regions) of
/// `frames` frames with one duration per frame.
#[derive(Clone, Debug)]
pub struct Animation {
    pub file: String,
    pub frames: u32,
    pub durations_ms: Vec<u64>,
    pub looping: bool,
    /// Optional atlas rectangles `[x, y, width, height]`, normalized into logical
    /// sprite frames at load time.
    pub regions: Option<Vec<[u32; 4]>>,
}

/// Sum of the first `n` durations.
pub open spec fn prefix_sum(d: Seq<u64>, n: int) -> int
    decreases n,
{
    if n <= 0 {
        0
    } else {
        prefix_sum(d, n - 1) + d[n - 1]
    }
}

pub open spec fn total_ms(d: Seq<u64>) -> int {
    prefix_sum(d, d.len() as int)
}

/// The frame that `cursor` milliseconds fall into, counting from frame `i`, and the
/// time left in it. Past the last frame it is the first frame with its full time.
pub open spec fn frame_from(d: Seq<u64>, cursor: int, i: int) -> (u32, u64)
    decreases d.len() - i,
{
    if i >= d.len() || i < 0 {
        (0, d[0])
    } else if cursor < d[i] {
        (i as u32, (d[i] - cursor) as u64)
    } else {
        frame_from(d, cursor - d[i], i + 1)
    }
}

pub proof fn lemma_prefix_monotone(d: Seq<u64>, a: int, b: int)
    requires
        0 <= a <= b <= d.len(),
    ensures
        prefix_sum(d, a) <= prefix_sum(d, b),
        prefix_sum(d, b) >= 0,
    decreases b,
{
    if b > 0 {
        if a < b {
            lemma_prefix_monotone(d, a, b - 1);
        } else {
            lemma_prefix_monotone(d, b - 1, b - 1);
        }
    }
}

impl Animation {
    /// The total length of one pass.
    pub open spec fn spec_total(&self) -> int {
        total_ms(self.durations_ms@)
    }

    /// Frame index and milliseconds until the next frame, `elapsed_ms` after the
    /// animation started. A one-shot holds its final frame once it has run; a loop
    /// starts over.
    pub open spec fn spec_frame_at(&self, elapsed_ms: u64) -> (u32, u64) {
        let total = self.spec_total();
        if !self.looping && elapsed_ms >= total {
            ((self.frames - 1) as u32, 1000)
        } else {
            frame_from(
                self.durations_ms@,
                if self.looping {
                    (elapsed_ms as int) % total
                } else {
                    elapsed_ms as int
                },
                0,
            )
        }
    }

    /// The animation can be played without arithmetic failure: its durations add up
    /// within a `u64`, a loop takes time, and a one-shot that can have ended has a
    /// last frame to hold.
    pub open spec fn playable_at(&self, elapsed_ms: u64) -> bool {
        &&& self.spec_total() <= u64::MAX
        &&& (self.looping ==> self.spec_total() > 0)
        &&& (!self.looping && elapsed_ms >= self.spec_total() ==> self.frames >= 1)
    }

    pub fn frame_at(&self, elapsed_ms: u64) -> (r: (u32, u64))
        requires
            self.playable_at(elapsed_ms),
        ensures
            r == self.spec_frame_at(elapsed_ms),
    {
        let d = &self.durations_ms;
        let mut total: u64 = 0;
        let mut i: usize = 0;
        while i < d.len()
            invariant
                i <= d@.len(),
                total == prefix_sum(d@, i as int),
                total_ms(d@) <= u64::MAX,
            decreases d@.len() - i,
        {
            proof {
                lemma_prefix_monotone(d@, i + 1, d@.len() as int);
            }
            total = total + d[i];
            i = i + 1;
        }
        if !self.looping && elapsed_ms >= total {
            return (self.frames - 1, 1000);
        }
        let mut cursor: u64 = if self.looping {
            elapsed_ms % total
        } else {
            elapsed_ms
        };
        let ghost start = cursor as int;
        assert(self.spec_frame_at(elapsed_ms) == frame_from(d@, start, 0));
        let mut frame: usize = 0;
        while frame < d.len()
            invariant
                frame <= d@.len(),
                frame_from(d@, start, 0) == frame_from(d@, cursor as int, frame as int),
                self.spec_frame_at(elapsed_ms) == frame_from(d@, start, 0),
                d == &self.durations_ms,
            decreases d@.len() - frame,
        {
            let duration = d[frame];
            if cursor < duration {
                assert(frame_from(d@, cursor as int, frame as int) == (frame as u32, (duration - cursor) as u64));
                return (frame as u32, duration - cursor);
            }
            cursor = cursor - duration;
            frame = frame + 1;
        }
        (0, d[0])
    }
}


/// A character manifest larger than this many bytes is refused.
pub const MANIFEST_LIMIT: u64 = 131072;

/// A sprite file larger than this many bytes is refused.
pub const SPRITE_FILE_LIMIT: u64 = 4194304;

/// The decoded pixels of a pack may take at most this many bytes.
pub const DECODED_LIMIT: u128 = 33554432;

pub const MAX_ANIMATIONS: usize = 64;

pub const MAX_NAME_BYTES: usize = 100;

pub const MIN_SPRITE_SIDE: u32 = 8;

pub const MAX_SPRITE_SIDE: u32 = 128;

pub const MAX_SCALE: u32 = 8;

pub const MAX_FRAMES: u32 = 64;

pub const MIN_FRAME_MS: u64 = 42;

pub const MAX_FRAME_MS: u64 = 60000;

#[verifier::external_type_specification]
#[verifier::external_body]
pub struct ExPathBuf(PathBuf);

/// An image as a mathematical value: width, height and RGBA bytes row by row.
pub struct Sheet {
    pub width: u32,
    pub height: u32,
    pub rgba: Seq<u8>,
}

/// Decoded RGBA pixels of one animation, frames side by side.
#[derive(Debug)]
pub struct SpriteSheet {
    pub width: u32,
    pub height: u32,
    pub rgba: Vec<u8>,
}

impl View for SpriteSheet {
    type V = Sheet;

    open spec fn view(&self) -> Sheet {
        Sheet { width: self.width, height: self.height, rgba: self.rgba@ }
    }
}

impl SpriteSheet {
    /// A copy of the sheet.
    pub fn duplicate(&self) -> (r: SpriteSheet)
        ensures
            r@ == self@,
    {
        let rgba = self.rgba.clone();
        assert(rgba@ =~= self.rgba@);
        SpriteSheet { width: self.width, height: self.height, rgba }
    }
}

/// A fully transparent `width` x `height` image.
pub open spec fn blank_sheet(width: u32, height: u32) -> Sheet {
    Sheet { width, height, rgba: Seq::new(rgba_len(width, height) as nat, |k: int| 0u8) }
}

fn blank(width: u32, height: u32) -> (r: SpriteSheet)
    requires
        rgba_len(width, height) <= usize::MAX,
    ensures
        r@ == blank_sheet(width, height),
{
    let n: usize = (width as usize) * (height as usize) * 4;
    let mut rgba: Vec<u8> = Vec::new();
    let mut i: usize = 0;
    while i < n
        invariant
            i <= n,
            n == rgba_len(width, height),
            rgba@.len() == i,
            forall|k: int| 0 <= k < i ==> rgba@[k] == 0u8,
        decreases n - i,
    {
        rgba.push(0u8);
        i = i + 1;
    }
    let r = SpriteSheet { width, height, rgba };
    assert(r@.rgba =~= blank_sheet(width, height).rgba);
    r
}

/// The metadata of a character pack, as its `character.json` declares it.
/// Animations and captions are in ascending name order, each name once.
#[derive(Debug)]
pub struct Manifest {
    pub id: String,
    pub name: String,
    pub author: String,
    pub description: String,
    pub sprite_size: [u32; 2],
    pub scale: u32,
    pub animations: Vec<(String, Animation)>,
    pub captions: Vec<(String, String)>,
    pub kind: String,
}

/// A validated character pack with one sprite sheet per animation.
#[derive(Debug)]
pub struct CharacterPack {
    pub root: PathBuf,
    pub manifest: Manifest,
    pub sheets: Vec<(String, SpriteSheet)>,
}

/// What the platform found for an animation's sprite file.
#[derive(Debug)]
pub enum AssetFile {
    /// The file was not looked for.
    NotLookedUp,
    /// The file resolves, through links, to a place outside the pack folder.
    OutsidePack,
    /// The file could not be resolved; the platform's message.
    Missing(String),
    Found(FoundAsset),
}

/// A sprite file inside the pack folder.
#[derive(Debug)]
pub struct FoundAsset {
    /// Identifies the resolved file: equal keys mean the same file.
    pub key: Vec<u8>,
    /// The resolved file name's extension, when it has one.
    pub extension: Option<String>,
    /// The file's size in bytes.
    pub size: u64,
    /// The file's bytes, or the platform's message when reading failed. Only the
    /// first `SPRITE_FILE_LIMIT + 1` bytes need to be read.
    pub contents: Result<Vec<u8>, String>,
}

/// Why a character pack was refused.
#[derive(Debug)]
pub enum PackError {
    ManifestTooLarge,
    InvalidMetadata,
    InvalidDimensions,
    MissingIdle,
    InvalidTiming(String),
    PathOutsidePack,
    LinkOutsidePack,
    AssetNotRead,
    Unreadable(String),
    NotPng,
    SpriteTooLarge,
    Image(String),
    StripSize { name: String, expected: (u32, u32), found: (u32, u32) },
    DecodedTooLarge,
    RegionCount(String),
    RegionOutside(String),
}

/// `PackError` with its texts as character sequences.
pub enum PackFault {
    ManifestTooLarge,
    InvalidMetadata,
    InvalidDimensions,
    MissingIdle,
    InvalidTiming(Seq<char>),
    PathOutsidePack,
    LinkOutsidePack,
    AssetNotRead,
    Unreadable(Seq<char>),
    NotPng,
    SpriteTooLarge,
    Image(Seq<char>),
    StripSize { name: Seq<char>, expected: (u32, u32), found: (u32, u32) },
    DecodedTooLarge,
    RegionCount(Seq<char>),
    RegionOutside(Seq<char>),
}

impl View for PackError {
    type V = PackFault;

    open spec fn view(&self) -> PackFault {
        match self {
            PackError::ManifestTooLarge => PackFault::ManifestTooLarge,
            PackError::InvalidMetadata => PackFault::InvalidMetadata,
            PackError::InvalidDimensions => PackFault::InvalidDimensions,
            PackError::MissingIdle => PackFault::MissingIdle,
            PackError::InvalidTiming(n) => PackFault::InvalidTiming(n@),
            PackError::PathOutsidePack => PackFault::PathOutsidePack,
            PackError::LinkOutsidePack => PackFault::LinkOutsidePack,
            PackError::AssetNotRead => PackFault::AssetNotRead,
            PackError::Unreadable(m) => PackFault::Unreadable(m@),
            PackError::NotPng => PackFault::NotPng,
            PackError::SpriteTooLarge => PackFault::SpriteTooLarge,
            PackError::Image(m) => PackFault::Image(m@),
            PackError::StripSize { name, expected, found } => PackFault::StripSize {
                name: name@,
                expected: *expected,
                found: *found,
            },
            PackError::DecodedTooLarge => PackFault::DecodedTooLarge,
            PackError::RegionCount(n) => PackFault::RegionCount(n@),
            PackError::RegionOutside(n) => PackFault::RegionOutside(n@),
        }
    }
}

/// The text a refusal reads as.
pub open spec fn spec_pack_message(f: PackFault) -> Seq<char> {
    match f {
        PackFault::ManifestTooLarge => "Manifest exceeds 128 KB"@,
        PackFault::InvalidMetadata => "Invalid pack metadata"@,
        PackFault::InvalidDimensions => "Invalid sprite dimensions or scale"@,
        PackFault::MissingIdle => "Every pack must provide an idle animation"@,
        PackFault::InvalidTiming(n) => "Invalid timing in "@ + n,
        PackFault::PathOutsidePack => "Asset paths must stay inside the character folder"@,
        PackFault::LinkOutsidePack => "Asset symlinks must stay inside the character folder"@,
        PackFault::AssetNotRead => "Sprite file was not read"@,
        PackFault::Unreadable(m) => m,
        PackFault::NotPng => "Only PNG sprite assets are accepted"@,
        PackFault::SpriteTooLarge => "Sprite file is too large"@,
        PackFault::Image(m) => m,
        PackFault::StripSize { name, expected, found } => name + ": expected "@ + decimal_text(
            expected.0 as nat,
        ) + "×"@ + decimal_text(expected.1 as nat) + " horizontal strip, got ("@ + decimal_text(
            found.0 as nat,
        ) + ", "@ + decimal_text(found.1 as nat) + ")"@,
        PackFault::DecodedTooLarge => "Decoded pack exceeds 32 MB"@,
        PackFault::RegionCount(n) => n + ": one atlas rectangle is required per frame"@,
        PackFault::RegionOutside(n) => n + ": atlas rectangle outside image"@,
    }
}

impl PackError {
    pub fn message(&self) -> (m: String)
        ensures
            m@ == spec_pack_message(self@),
    {
        match self {
            PackError::ManifestTooLarge => String::from_str("Manifest exceeds 128 KB"),
            PackError::InvalidMetadata => String::from_str("Invalid pack metadata"),
            PackError::InvalidDimensions => String::from_str("Invalid sprite dimensions or scale"),
            PackError::MissingIdle => String::from_str("Every pack must provide an idle animation"),
            PackError::InvalidTiming(n) => {
                let mut m = String::from_str("Invalid timing in ");
                m.append(n.as_str());
                m
            },
            PackError::PathOutsidePack => String::from_str(
                "Asset paths must stay inside the character folder",
            ),
            PackError::LinkOutsidePack => String::from_str(
                "Asset symlinks must stay inside the character folder",
            ),
            PackError::AssetNotRead => String::from_str("Sprite file was not read"),
            PackError::Unreadable(m) => m.clone(),
            PackError::NotPng => String::from_str("Only PNG sprite assets are accepted"),
            PackError::SpriteTooLarge => String::from_str("Sprite file is too large"),
            PackError::Image(m) => m.clone(),
            PackError::StripSize { name, expected, found } => {
                let mut m = name.clone();
                m.append(": expected ");
                let a = decimal(expected.0 as u64);
                m.append(a.as_str());
                m.append("×");
                let b = decimal(expected.1 as u64);
                m.append(b.as_str());
                m.append(" horizontal strip, got (");
                let c = decimal(found.0 as u64);
                m.append(c.as_str());
                m.append(", ");
                let d = decimal(found.1 as u64);
                m.append(d.as_str());
                m.append(")");
                m
            },
            PackError::DecodedTooLarge => String::from_str("Decoded pack exceeds 32 MB"),
            PackError::RegionCount(n) => {
                let mut m = n.clone();
                m.append(": one atlas rectangle is required per frame");
                m
            },
            PackError::RegionOutside(n) => {
                let mut m = n.clone();
                m.append(": atlas rectangle outside image");
                m
            },
        }
    }
}

/// Index of the first element equal to `x`, or -1.
pub open spec fn first_index<A>(s: Seq<A>, x: A) -> int
    decreases s.len(),
{
    if s.len() == 0 {
        -1
    } else {
        let j = first_index(s.drop_last(), x);
        if j >= 0 {
            j
        } else if s.last() == x {
            s.len() - 1
        } else {
            -1
        }
    }
}

pub proof fn lemma_first_index_step<A>(s: Seq<A>, x: A, i: int)
    requires
        0 <= i < s.len(),
        first_index(s.take(i), x) == -1,
    ensures
        first_index(s.take(i + 1), x) == (if s[i] == x {
            i
        } else {
            -1
        }),
{
    assert(s.take(i + 1).drop_last() =~= s.take(i));
}

pub proof fn lemma_first_index_prefix<A>(s: Seq<A>, x: A, n: int)
    requires
        0 <= n <= s.len(),
        first_index(s.take(n), x) >= 0,
    ensures
        first_index(s, x) == first_index(s.take(n), x),
    decreases s.len() - n,
{
    if n == s.len() {
        assert(s.take(n) =~= s);
    } else {
        assert(s.take(n + 1).drop_last() =~= s.take(n));
        lemma_first_index_prefix(s, x, n + 1);
    }
}

pub proof fn lemma_first_index_range<A>(s: Seq<A>, x: A)
    ensures
        -1 <= first_index(s, x) < s.len(),
        first_index(s, x) >= 0 ==> s[first_index(s, x)] == x,
        first_index(s, x) == -1 ==> forall|k: int| 0 <= k < s.len() ==> s[k] != x,
    decreases s.len(),
{
    if s.len() > 0 {
        lemma_first_index_range(s.drop_last(), x);
        let j = first_index(s.drop_last(), x);
        if j == -1 {
            assert forall|k: int| 0 <= k < s.len() - 1 implies s[k] != x by {
                assert(s.drop_last()[k] == s[k]);
            }
        }
    }
}

/// The names of named entries, in order.
pub open spec fn names_of<T>(entries: Seq<(String, T)>) -> Seq<Seq<char>> {
    entries.map_values(|e: (String, T)| e.0@)
}

/// The asset path is relative, has no backslash or colon, no `..` segment, and
/// does not begin with a `.` segment: it names a file below the pack folder.
pub open spec fn path_is_contained(p: Seq<char>) -> bool {
    &&& !(p.len() > 0 && p[0] == '/')
    &&& !p.contains('\\')
    &&& !p.contains(':')
    &&& !(p.len() > 0 && p[0] == '.' && (p.len() == 1 || p[1] == '/'))
    &&& !(exists|i: int|
        0 <= i && i + 1 < p.len() && #[trigger] p[i] == '.' && p[i + 1] == '.' && (i == 0 || p[i
            - 1] == '/') && (i + 2 == p.len() || p[i + 2] == '/'))
}

/// Refuses asset paths that could leave the character folder. Links inside the
/// folder are checked when the path is resolved.
pub fn safe_path(relative: &str) -> (r: Result<(), PackError>)
    ensures
        r is Ok <==> path_is_contained(relative@),
        r matches Err(e) ==> e == PackError::PathOutsidePack,
{
    let n = relative.unicode_len();
    let mut chars: Vec<char> = Vec::new();
    let mut i: usize = 0;
    while i < n
        invariant
            n == relative@.len(),
            i <= n,
            chars@ =~= relative@.take(i as int),
        decreases n - i,
    {
        chars.push(relative.get_char(i));
        i = i + 1;
    }
    assert(chars@ =~= relative@);
    let ghost p = chars@;
    if n > 0 && chars[0] == '/' {
        return Err(PackError::PathOutsidePack);
    }
    if n > 0 && chars[0] == '.' && (n == 1 || chars[1] == '/') {
        return Err(PackError::PathOutsidePack);
    }
    let mut k: usize = 0;
    while k < n
        invariant
            n == p.len(),
            p == chars@,
            p == relative@,
            k <= n,
            forall|j: int| 0 <= j < k ==> p[j] != '\\' && p[j] != ':',
            forall|j: int|
                0 <= j < k && j + 1 < p.len() ==> !(#[trigger] p[j] == '.' && p[j + 1] == '.' && (j
                    == 0 || p[j - 1] == '/') && (j + 2 == p.len() || p[j + 2] == '/')),
        decreases n - k,
    {
        let c = chars[k];
        if c == '\\' || c == ':' {
            assert(p[k as int] == c);
            return Err(PackError::PathOutsidePack);
        }
        if c == '.' && k + 1 < n && chars[k + 1] == '.' && (k == 0 || chars[k - 1] == '/') && (k + 2
            == n || chars[k + 2] == '/') {
            assert(p[k as int] == '.');
            return Err(PackError::PathOutsidePack);
        }
        k = k + 1;
    }
    proof {
        if p.contains('\\') {
            let j = choose|j: int| 0 <= j < p.len() && p[j] == '\\';
            assert(p[j] != '\\');
        }
        if p.contains(':') {
            let j = choose|j: int| 0 <= j < p.len() && p[j] == ':';
            assert(p[j] != ':');
        }
    }
    Ok(())
}


/// `character.json` may be parsed: it is at most `MANIFEST_LIMIT` bytes.
pub fn check_manifest_size(bytes: u64) -> (r: Result<(), PackError>)
    ensures
        r is Ok <==> bytes <= MANIFEST_LIMIT,
        r matches Err(e) ==> e == PackError::ManifestTooLarge,
{
    if bytes > MANIFEST_LIMIT {
        Err(PackError::ManifestTooLarge)
    } else {
        Ok(())
    }
}

pub open spec fn metadata_ok(m: Manifest) -> bool {
    &&& m.id@.len() > 0
    &&& vstd::utf8::encode_utf8(m.name@).len() <= MAX_NAME_BYTES
    &&& m.animations@.len() <= MAX_ANIMATIONS
}

pub open spec fn size_ok(m: Manifest) -> bool {
    &&& MIN_SPRITE_SIDE <= m.sprite_size[0] <= MAX_SPRITE_SIDE
    &&& MIN_SPRITE_SIDE <= m.sprite_size[1] <= MAX_SPRITE_SIDE
    &&& 1 <= m.scale <= MAX_SCALE
}

pub open spec fn has_idle(m: Manifest) -> bool {
    first_index(names_of(m.animations@), "idle"@) >= 0
}

pub open spec fn timing_ok(a: Animation) -> bool {
    &&& 1 <= a.frames <= MAX_FRAMES
    &&& a.durations_ms@.len() == a.frames
    &&& forall|k: int|
        0 <= k < a.durations_ms@.len() ==> MIN_FRAME_MS <= #[trigger] a.durations_ms@[k]
            <= MAX_FRAME_MS
}

/// Loading progress: decoded bytes so far, the decoded files by key, the sheets.
pub struct Progress {
    pub total: int,
    pub decoded: Seq<(Seq<u8>, Sheet)>,
    pub sheets: Seq<(Seq<char>, Sheet)>,
}

pub open spec fn decoded_keys(d: Seq<(Seq<u8>, Sheet)>) -> Seq<Seq<u8>> {
    d.map_values(|e: (Seq<u8>, Sheet)| e.0)
}

/// The atlas rectangle `[x, y, width, height]` is not empty and lies inside `source`.
pub open spec fn rect_fits(source: Sheet, r: [u32; 4]) -> bool {
    &&& r[2] != 0
    &&& r[3] != 0
    &&& r[0] + r[2] <= source.width
    &&& r[1] + r[3] <= source.height
}

/// One atlas rectangle scaled to a `w` x `h` frame.
pub open spec fn region_frame(source: Sheet, r: [u32; 4], w: u32, h: u32) -> Sheet {
    let part = cropped(source, r[0], r[1], r[2], r[3]);
    Sheet { width: w, height: h, rgba: nearest_resized(part.rgba, r[2], r[3], w, h) }
}

/// The strip after placing the first `n` atlas rectangles side by side.
pub open spec fn strip_upto(source: Sheet, rs: Seq<[u32; 4]>, w: u32, h: u32, n: int) -> Sheet
    decreases n,
{
    if n <= 0 {
        blank_sheet((w * rs.len()) as u32, h)
    } else {
        placed(
            strip_upto(source, rs, w, h, n - 1),
            region_frame(source, rs[n - 1], w, h),
            ((n - 1) * w) as u32,
        )
    }
}

/// The sprite sheet of an animation made from a decoded file.
pub open spec fn framed_sheet(source: Sheet, a: Animation, w: u32, h: u32, name: Seq<char>) -> Result<Sheet, PackFault> {
    match a.regions {
        None => Ok(source),
        Some(rs) => if rs@.len() != a.frames {
            Err(PackFault::RegionCount(name))
        } else if exists|i: int| 0 <= i < rs@.len() && !rect_fits(source, #[trigger] rs@[i]) {
            Err(PackFault::RegionOutside(name))
        } else {
            Ok(strip_upto(source, rs@, w, h, rs@.len() as int))
        },
    }
}

pub open spec fn is_png(ext: Option<String>) -> bool {
    ext matches Some(e) && e@ == "png"@
}

/// Adds an animation whose sprite file was found.
pub open spec fn spec_add_found(
    p: Progress,
    w: u32,
    h: u32,
    name: Seq<char>,
    a: Animation,
    f: FoundAsset,
) -> Result<Progress, PackFault> {
    if !is_png(f.extension) {
        Err(PackFault::NotPng)
    } else if f.size > SPRITE_FILE_LIMIT {
        Err(PackFault::SpriteTooLarge)
    } else {
        match f.contents {
            Err(m) => Err(PackFault::Unreadable(m@)),
            Ok(bytes) => match png_header(bytes@) {
                Err(m) => Err(PackFault::Image(m)),
                Ok(dims) => {
                    let expected = ((w * a.frames) as u32, h);
                    let at = first_index(decoded_keys(p.decoded), f.key@);
                    let total = if at < 0 {
                        p.total + dims.0 * dims.1 * 4
                    } else {
                        p.total
                    };
                    if a.regions is None && dims != expected {
                        Err(PackFault::StripSize { name, expected, found: dims })
                    } else if total > DECODED_LIMIT {
                        Err(PackFault::DecodedTooLarge)
                    } else {
                        let source: Result<Sheet, Seq<char>> = if at >= 0 {
                            Ok(p.decoded[at].1)
                        } else {
                            match png_pixels(bytes@) {
                                Ok(t) => Ok(Sheet { width: t.0, height: t.1, rgba: t.2 }),
                                Err(m) => Err(m),
                            }
                        };
                        match source {
                            Err(m) => Err(PackFault::Image(m)),
                            Ok(src) => {
                                let decoded = if at < 0 {
                                    p.decoded.push((f.key@, src))
                                } else {
                                    p.decoded
                                };
                                match framed_sheet(src, a, w, h, name) {
                                    Err(e) => Err(e),
                                    Ok(sheet) => Ok(
                                        Progress { total, decoded, sheets: p.sheets.push((name, sheet)) },
                                    ),
                                }
                            },
                        }
                    }
                },
            },
        }
    }
}

/// Adds one animation: checks its timing and path, then its sprite file.
pub open spec fn spec_add(
    p: Progress,
    w: u32,
    h: u32,
    name: Seq<char>,
    a: Animation,
    asset: Option<AssetFile>,
) -> Result<Progress, PackFault> {
    if !timing_ok(a) {
        Err(PackFault::InvalidTiming(name))
    } else if !path_is_contained(a.file@) {
        Err(PackFault::PathOutsidePack)
    } else {
        match asset {
            Some(AssetFile::Found(f)) => spec_add_found(p, w, h, name, a, f),
            Some(AssetFile::OutsidePack) => Err(PackFault::LinkOutsidePack),
            Some(AssetFile::Missing(m)) => Err(PackFault::Unreadable(m@)),
            _ => Err(PackFault::AssetNotRead),
        }
    }
}

pub open spec fn asset_at(assets: Seq<AssetFile>, i: int) -> Option<AssetFile> {
    if 0 <= i < assets.len() {
        Some(assets[i])
    } else {
        None
    }
}

pub open spec fn empty_progress() -> Progress {
    Progress { total: 0, decoded: Seq::empty(), sheets: Seq::empty() }
}

/// Progress after the first `n` animations, in manifest order.
pub open spec fn spec_load_from(m: Manifest, assets: Seq<AssetFile>, n: int) -> Result<Progress, PackFault>
    decreases n,
{
    if n <= 0 {
        Ok(empty_progress())
    } else {
        match spec_load_from(m, assets, n - 1) {
            Err(e) => Err(e),
            Ok(p) => spec_add(
                p,
                m.sprite_size[0],
                m.sprite_size[1],
                m.animations@[n - 1].0@,
                m.animations@[n - 1].1,
                asset_at(assets, n - 1),
            ),
        }
    }
}

/// The sheets a pack loads to, by animation name, or why it is refused. `assets`
/// holds what the platform found for each animation's file, in manifest order.
pub open spec fn spec_load(m: Manifest, assets: Seq<AssetFile>) -> Result<Seq<(Seq<char>, Sheet)>, PackFault> {
    if !metadata_ok(m) {
        Err(PackFault::InvalidMetadata)
    } else if !size_ok(m) {
        Err(PackFault::InvalidDimensions)
    } else if !has_idle(m) {
        Err(PackFault::MissingIdle)
    } else {
        match spec_load_from(m, assets, m.animations@.len() as int) {
            Ok(p) => Ok(p.sheets),
            Err(e) => Err(e),
        }
    }
}

pub open spec fn sheets_view(s: Seq<(String, SpriteSheet)>) -> Seq<(Seq<char>, Sheet)> {
    s.map_values(|e: (String, SpriteSheet)| (e.0@, e.1@))
}

pub open spec fn decoded_view(s: Seq<(Vec<u8>, SpriteSheet)>) -> Seq<(Seq<u8>, Sheet)> {
    s.map_values(|e: (Vec<u8>, SpriteSheet)| (e.0@, e.1@))
}

struct Loading {
    total: u128,
    decoded: Vec<(Vec<u8>, SpriteSheet)>,
    /// The bytes each decoded file was decoded from.
    sources: Ghost<Seq<Seq<u8>>>,
    sheets: Vec<(String, SpriteSheet)>,
}

impl Loading {
    closed spec fn view(&self) -> Progress {
        Progress {
            total: self.total as int,
            decoded: decoded_view(self.decoded@),
            sheets: sheets_view(self.sheets@),
        }
    }

    /// Every decoded file has four bytes per pixel and the running total is within
    /// the limit.
    closed spec fn wf(&self) -> bool {
        &&& self.total <= DECODED_LIMIT
        &&& self.sources@.len() == self.decoded@.len()
        &&& forall|k: int|
            0 <= k < self.decoded@.len() ==> (#[trigger] self.decoded@[k]).1.rgba@.len()
                == rgba_len(self.decoded@[k].1.width, self.decoded@[k].1.height)
        &&& forall|k: int|
            0 <= k < self.decoded@.len() ==> png_header(#[trigger] self.sources@[k]) == Ok::<
                (u32, u32),
                Seq<char>,
            >((self.decoded@[k].1.width, self.decoded@[k].1.height))
        &&& forall|k: int|
            0 <= k < self.sheets@.len() ==> (#[trigger] self.sheets@[k]).1.rgba@.len()
                == rgba_len(self.sheets@[k].1.width, self.sheets@[k].1.height)
    }
}

fn timing_valid(a: &Animation) -> (r: bool)
    ensures
        r == timing_ok(*a),
{
    if a.frames == 0 || a.frames > MAX_FRAMES || a.durations_ms.len() != a.frames as usize {
        return false;
    }
    let mut i: usize = 0;
    while i < a.durations_ms.len()
        invariant
            i <= a.durations_ms@.len(),
            forall|k: int|
                0 <= k < i ==> MIN_FRAME_MS <= #[trigger] a.durations_ms@[k] <= MAX_FRAME_MS,
        decreases a.durations_ms@.len() - i,
    {
        let d = a.durations_ms[i];
        if d < MIN_FRAME_MS || d > MAX_FRAME_MS {
            return false;
        }
        i = i + 1;
    }
    true
}

/// Names in strictly ascending order, so that each occurs once: the shape of a
/// map keyed by name.
pub open spec fn names_ascending(names: Seq<Seq<char>>) -> bool {
    forall|i: int, j: int|
        0 <= i < j < names.len() ==> text_before(#[trigger] names[i], #[trigger] names[j])
}

/// In ascending names no name occurs twice.
pub proof fn lemma_ascending_unique(names: Seq<Seq<char>>, i: int, j: int)
    requires
        names_ascending(names),
        0 <= i < j < names.len(),
    ensures
        names[i] != names[j],
{
    lemma_before_irreflexive(names[i]);
}

/// Whether the entries' names ascend.
fn ordered<T>(entries: &Vec<(String, T)>) -> (r: bool)
    ensures
        r == names_ascending(names_of(entries@)),
{
    let ghost names = names_of(entries@);
    let mut k: usize = 1;
    while k < entries.len()
        invariant
            names == names_of(entries@),
            names.len() == entries@.len(),
            1 <= k,
            k <= entries@.len() || entries@.len() == 0,
            forall|i: int, j: int|
                0 <= i < j < k && j < names.len() ==> text_before(
                    #[trigger] names[i],
                    #[trigger] names[j],
                ),
        decreases entries@.len() - k,
    {
        if !before(entries[k - 1].0.as_str(), entries[k].0.as_str()) {
            assert(!text_before(names[k - 1], names[k as int]));
            return false;
        }
        assert forall|i: int, j: int|
            0 <= i < j < k + 1 && j < names.len() implies text_before(
            #[trigger] names[i],
            #[trigger] names[j],
        ) by {
            if j == k && i < k - 1 {
                lemma_before_transitive(names[i], names[k - 1], names[j]);
            }
        }
        k = k + 1;
    }
    true
}

impl Manifest {
    /// Animations and captions are keyed by name: ascending, each name once.
    pub open spec fn keys_in_order(&self) -> bool {
        &&& names_ascending(names_of(self.animations@))
        &&& names_ascending(names_of(self.captions@))
    }

    pub fn has_ordered_keys(&self) -> (r: bool)
        ensures
            r == self.keys_in_order(),
    {
        ordered(&self.animations) && ordered(&self.captions)
    }

    /// The pack's caption for an animation, or `fallback` when it has none.
    pub fn caption<'a>(&'a self, animation: &str, fallback: &'a str) -> (r: &'a str)
        ensures
            ({
                let i = first_index(names_of(self.captions@), animation@);
                if i >= 0 {
                    r@ == self.captions@[i].1@
                } else {
                    r@ == fallback@
                }
            }),
    {
        match find_named(&self.captions, animation) {
            Some(i) => self.captions[i].1.as_str(),
            None => fallback,
        }
    }
}

impl Animation {
    /// The frame count and durations are within the pack rules.
    pub fn has_valid_timing(&self) -> (r: bool)
        ensures
            r == timing_ok(*self),
    {
        timing_valid(self)
    }
}

impl SpriteSheet {
    /// The sheet is a strip of the animation's frames at the sprite size.
    pub fn fits(&self, a: &Animation, w: u32, h: u32) -> (r: bool)
        ensures
            r == is_strip(self@, *a, w, h),
    {
        let wide = w as u128;
        let frames = a.frames as u128;
        let width = self.width as u128;
        let high = h as u128;
        assert(wide * frames <= 0xffff_ffff_ffff_ffffu128 * 0xffff_ffffu128) by (nonlinear_arith)
            requires
                wide <= 0xffff_ffff,
                frames <= 0xffff_ffff,
        ;
        assert(width * high <= 0xffff_ffffu128 * 0xffff_ffffu128) by (nonlinear_arith)
            requires
                width <= 0xffff_ffff,
                high <= 0xffff_ffff,
        ;
        width == wide * frames && self.height == h && self.rgba.len() as u128 == width * high * 4
    }
}

fn find_decoded(decoded: &Vec<(Vec<u8>, SpriteSheet)>, key: &Vec<u8>) -> (r: Option<usize>)
    ensures
        match r {
            Some(i) => i == first_index(decoded_keys(decoded_view(decoded@)), key@) && i
                < decoded@.len(),
            None => first_index(decoded_keys(decoded_view(decoded@)), key@) == -1,
        },
{
    let ghost keys = decoded_keys(decoded_view(decoded@));
    let mut i: usize = 0;
    proof {
        assert(keys.take(0) =~= Seq::<Seq<u8>>::empty());
    }
    while i < decoded.len()
        invariant
            keys == decoded_keys(decoded_view(decoded@)),
            keys.len() == decoded@.len(),
            i <= decoded@.len(),
            first_index(keys.take(i as int), key@) == -1,
        decreases decoded@.len() - i,
    {
        proof {
            lemma_first_index_step(keys, key@, i as int);
        }
        if same_bytes(decoded[i].0.as_slice(), key.as_slice()) {
            proof {
                lemma_first_index_prefix(keys, key@, i + 1);
            }
            return Some(i);
        }
        i = i + 1;
    }
    proof {
        assert(keys.take(keys.len() as int) =~= keys);
    }
    None
}

fn rect_inside(source: &SpriteSheet, r: [u32; 4]) -> (ok: bool)
    ensures
        ok == rect_fits(source@, r),
{
    let x = r[0];
    let y = r[1];
    let rw = r[2];
    let rh = r[3];
    if rw == 0 || rh == 0 {
        return false;
    }
    let right = x.checked_add(rw);
    let bottom = y.checked_add(rh);
    match (right, bottom) {
        (Some(a), Some(b)) => a <= source.width && b <= source.height,
        _ => false,
    }
}

/// Builds the animation's sheet from its decoded file.
fn framed(source: &SpriteSheet, a: &Animation, w: u32, h: u32, name: &String) -> (r: Result<SpriteSheet, PackError>)
    requires
        source.rgba@.len() == rgba_len(source.width, source.height),
        timing_ok(*a),
        MIN_SPRITE_SIDE <= w <= MAX_SPRITE_SIDE,
        MIN_SPRITE_SIDE <= h <= MAX_SPRITE_SIDE,
    ensures
        match r {
            Ok(s) => framed_sheet(source@, *a, w, h, name@) == Ok::<Sheet, PackFault>(s@)
                && s.rgba@.len() == rgba_len(s.width, s.height),
            Err(e) => framed_sheet(source@, *a, w, h, name@) == Err::<Sheet, PackFault>(e@),
        },
        match r {
            Ok(s) => a.regions is Some ==> s.width == w * a.frames && s.height == h,
            Err(_) => true,
        },
{
    let regions = match &a.regions {
        None => return Ok(source.duplicate()),
        Some(rs) => rs,
    };
    if regions.len() != a.frames as usize {
        return Err(PackError::RegionCount(name.clone()));
    }
    let mut i: usize = 0;
    while i < regions.len()
        invariant
            i <= regions@.len(),
            a.regions == Some(*regions),
            regions@.len() == a.frames,
            forall|k: int| 0 <= k < i ==> rect_fits(source@, #[trigger] regions@[k]),
        decreases regions@.len() - i,
    {
        if !rect_inside(source, regions[i]) {
            assert(!rect_fits(source@, regions@[i as int]));
            return Err(PackError::RegionOutside(name.clone()));
        }
        i = i + 1;
    }
    let frames = a.frames;
    assert(w * frames <= 128 * 64) by (nonlinear_arith)
        requires
            w <= 128,
            frames <= 64,
    ;
    let strip_width: u32 = w * frames;
    assert(rgba_len(strip_width, h) <= 8192 * 128 * 4) by (nonlinear_arith)
        requires
            strip_width <= 8192,
            h <= 128,
    ;
    assert(strip_width == frames * w) by (nonlinear_arith)
        requires
            strip_width == w * frames,
    ;
    let mut strip = blank(strip_width, h);
    let mut j: usize = 0;
    while j < regions.len()
        invariant
            j <= regions@.len(),
            regions@.len() == frames,
            frames <= MAX_FRAMES,
            MIN_SPRITE_SIDE <= w <= MAX_SPRITE_SIDE,
            MIN_SPRITE_SIDE <= h <= MAX_SPRITE_SIDE,
            strip_width == w * frames,
            strip_width == frames * w,
            source.rgba@.len() == rgba_len(source.width, source.height),
            forall|k: int| 0 <= k < regions@.len() ==> rect_fits(source@, #[trigger] regions@[k]),
            strip@ == strip_upto(source@, regions@, w, h, j as int),
            strip.width == strip_width,
            strip.height == h,
            strip.rgba@.len() == rgba_len(strip_width, h),
        decreases regions@.len() - j,
    {
        let rect = regions[j];
        let x = rect[0];
        let y = rect[1];
        let rw = rect[2];
        let rh = rect[3];
        assert(rect_fits(source@, regions@[j as int]));
        let part = crop(source, x, y, rw, rh);
        let frame = resize_nearest(&part, w, h);
        assert(j * w + w <= frames * w) by (nonlinear_arith)
            requires
                j < frames,
        ;
        assert(j * w <= 64 * 128) by (nonlinear_arith)
            requires
                j < 64,
                w <= 128,
        ;
        let at: u32 = (j as u32) * w;
        assert(at + w <= strip_width);
        replace(&mut strip, &frame, at);
        proof {
            assert(frame@ == region_frame(source@, regions@[j as int], w, h));
            assert(strip_width == frames * w) by (nonlinear_arith)
                requires
                    strip_width == w * frames,
            ;
        }
        j = j + 1;
    }
    proof {
        lemma_strip_dims(source@, regions@, w, h, regions@.len() as int);
    }
    Ok(strip)
}

proof fn lemma_strip_dims(source: Sheet, rs: Seq<[u32; 4]>, w: u32, h: u32, n: int)
    ensures
        strip_upto(source, rs, w, h, n).width == (w * rs.len()) as u32,
        strip_upto(source, rs, w, h, n).height == h,
    decreases n,
{
    if n > 0 {
        lemma_strip_dims(source, rs, w, h, n - 1);
    }
}


/// The asset is a found file with this key whose contents were read as `bytes`.
pub open spec fn read_as(asset: Option<AssetFile>, key: Seq<u8>, bytes: Seq<u8>) -> bool {
    &&& asset matches Some(AssetFile::Found(f))
    &&& f.key@ == key
    &&& f.contents matches Ok(b)
    &&& b@ == bytes
}

/// The contents of a found file as plain values.
pub open spec fn contents_view(f: FoundAsset) -> Result<Seq<u8>, Seq<char>> {
    match f.contents {
        Ok(b) => Ok(b@),
        Err(m) => Err(m@),
    }
}

/// Two findings of the same file carry the same contents.
pub open spec fn same_file_same_contents(a: AssetFile, b: AssetFile) -> bool {
    match (a, b) {
        (AssetFile::Found(f), AssetFile::Found(g)) => f.key@ == g.key@ ==> contents_view(f)
            == contents_view(g),
        _ => true,
    }
}

/// Wherever the platform found one file twice, it read it the same both times.
pub open spec fn assets_consistent(assets: Seq<AssetFile>) -> bool {
    forall|i: int, j: int|
        0 <= i < assets.len() && 0 <= j < assets.len() ==> same_file_same_contents(
            #[trigger] assets[i],
            #[trigger] assets[j],
        )
}

/// A horizontal strip of the animation's frames at the sprite size, with four
/// bytes per pixel.
pub open spec fn is_strip(sheet: Sheet, a: Animation, w: u32, h: u32) -> bool {
    &&& sheet.width == w * a.frames
    &&& sheet.height == h
    &&& sheet.rgba.len() == rgba_len(sheet.width, sheet.height)
}

/// Every decoded file with the found asset's key was decoded from its contents.
spec fn agrees(asset: Option<AssetFile>, decoded: Seq<(Vec<u8>, SpriteSheet)>, sources: Seq<Seq<u8>>) -> bool {
    match asset {
        Some(AssetFile::Found(f)) => forall|k: int|
            0 <= k < decoded.len() && (#[trigger] decoded[k]).0@ == f.key@ ==> read_as(
                asset,
                f.key@,
                sources[k],
            ),
        _ => true,
    }
}

pub open spec fn deref_asset(a: Option<&AssetFile>) -> Option<AssetFile> {
    match a {
        Some(x) => Some(*x),
        None => None,
    }
}

fn copy_bytes(v: &Vec<u8>) -> (r: Vec<u8>)
    ensures
        r@ == v@,
{
    let mut r: Vec<u8> = Vec::new();
    let mut i: usize = 0;
    while i < v.len()
        invariant
            i <= v@.len(),
            r@ =~= v@.take(i as int),
        decreases v@.len() - i,
    {
        r.push(v[i]);
        i = i + 1;
    }
    assert(r@ =~= v@);
    r
}

/// Index of the first entry with this name.
fn find_named<T>(entries: &Vec<(String, T)>, name: &str) -> (r: Option<usize>)
    ensures
        match r {
            Some(i) => i == first_index(names_of(entries@), name@) && i < entries@.len(),
            None => first_index(names_of(entries@), name@) == -1,
        },
{
    let ghost names = names_of(entries@);
    let mut i: usize = 0;
    proof {
        assert(names.take(0) =~= Seq::<Seq<char>>::empty());
    }
    while i < entries.len()
        invariant
            names == names_of(entries@),
            names.len() == entries@.len(),
            i <= entries@.len(),
            first_index(names.take(i as int), name@) == -1,
        decreases entries@.len() - i,
    {
        proof {
            lemma_first_index_step(names, name@, i as int);
        }
        if same_text(entries[i].0.as_str(), name) {
            proof {
                lemma_first_index_prefix(names, name@, i + 1);
            }
            return Some(i);
        }
        i = i + 1;
    }
    proof {
        assert(names.take(names.len() as int) =~= names);
    }
    None
}

proof fn lemma_decoded_push(v: Seq<(Vec<u8>, SpriteSheet)>, x: (Vec<u8>, SpriteSheet))
    ensures
        decoded_view(v.push(x)) =~= decoded_view(v).push((x.0@, x.1@)),
        decoded_keys(decoded_view(v)) =~= v.map_values(|e: (Vec<u8>, SpriteSheet)| e.0@),
{
}

proof fn lemma_sheets_push(v: Seq<(String, SpriteSheet)>, x: (String, SpriteSheet))
    ensures
        sheets_view(v.push(x)) =~= sheets_view(v).push((x.0@, x.1@)),
{
}

/// Adds one animation to the pack being loaded.
fn add_animation(
    loading: &mut Loading,
    w: u32,
    h: u32,
    name: &String,
    a: &Animation,
    asset: Option<&AssetFile>,
) -> (r: Result<(), PackError>)
    requires
        old(loading).wf(),
        MIN_SPRITE_SIDE <= w <= MAX_SPRITE_SIDE,
        MIN_SPRITE_SIDE <= h <= MAX_SPRITE_SIDE,
    ensures
        match r {
            Ok(()) => spec_add(old(loading).view(), w, h, name@, *a, deref_asset(asset)) == Ok::<
                Progress,
                PackFault,
            >(final(loading).view()) && final(loading).wf(),
            Err(e) => spec_add(old(loading).view(), w, h, name@, *a, deref_asset(asset)) == Err::<
                Progress,
                PackFault,
            >(e@),
        },
        r is Ok ==> {
            &&& timing_ok(*a)
            &&& final(loading).sheets@.len() == old(loading).sheets@.len() + 1
            &&& forall|k: int|
                0 <= k < old(loading).sheets@.len() ==> final(loading).sheets@[k] == old(
                    loading,
                ).sheets@[k]
            &&& final(loading).sheets@.last().0@ == name@
            &&& (agrees(deref_asset(asset), old(loading).decoded@, old(loading).sources@)
                ==> is_strip(final(loading).sheets@.last().1@, *a, w, h))
            &&& old(loading).decoded@.len() <= final(loading).decoded@.len()
            &&& forall|k: int|
                0 <= k < old(loading).decoded@.len() ==> final(loading).decoded@[k] == old(
                    loading,
                ).decoded@[k] && final(loading).sources@[k] == old(loading).sources@[k]
            &&& forall|k: int|
                old(loading).decoded@.len() <= k < final(loading).decoded@.len() ==> read_as(
                    deref_asset(asset),
                    final(loading).decoded@[k].0@,
                    final(loading).sources@[k],
                )
        },
{
    if !timing_valid(a) {
        return Err(PackError::InvalidTiming(name.clone()));
    }
    match safe_path(a.file.as_str()) {
        Err(e) => return Err(e),
        Ok(()) => {},
    }
    let found = match asset {
        Some(AssetFile::Found(f)) => f,
        Some(AssetFile::OutsidePack) => return Err(PackError::LinkOutsidePack),
        Some(AssetFile::Missing(m)) => return Err(PackError::Unreadable(m.clone())),
        _ => return Err(PackError::AssetNotRead),
    };
    let png = match &found.extension {
        Some(e) => same_text(e.as_str(), "png"),
        None => false,
    };
    if !png {
        return Err(PackError::NotPng);
    }
    if found.size > SPRITE_FILE_LIMIT {
        return Err(PackError::SpriteTooLarge);
    }
    let bytes = match &found.contents {
        Ok(b) => b,
        Err(m) => return Err(PackError::Unreadable(m.clone())),
    };
    let dims = match png_dimensions(bytes.as_slice()) {
        Ok(d) => d,
        Err(m) => return Err(PackError::Image(m)),
    };
    assert(w * a.frames <= 128 * 64) by (nonlinear_arith)
        requires
            w <= 128,
            a.frames <= 64,
    ;
    let expected: (u32, u32) = (w * a.frames, h);
    let at = find_decoded(&loading.decoded, &found.key);
    assert((dims.0 as u128) * (dims.1 as u128) <= 0xffff_ffff_ffff_ffffu128) by (nonlinear_arith)
        requires
            dims.0 <= 0xffff_ffffu32,
            dims.1 <= 0xffff_ffffu32,
    ;
    let total: u128 = match at {
        Some(_) => loading.total,
        None => loading.total + (dims.0 as u128) * (dims.1 as u128) * 4,
    };
    if a.regions.is_none() && (dims.0 != expected.0 || dims.1 != expected.1) {
        return Err(PackError::StripSize { name: name.clone(), expected, found: dims });
    }
    if total > DECODED_LIMIT {
        return Err(PackError::DecodedTooLarge);
    }
    let ghost before = loading.decoded@;
    let index = match at {
        Some(i) => i,
        None => {
            let sheet = match decode_png(bytes.as_slice()) {
                Ok(s) => s,
                Err(m) => return Err(PackError::Image(m)),
            };
            let key = copy_bytes(&found.key);
            loading.decoded.push((key, sheet));
            loading.sources = Ghost(loading.sources@.push(bytes@));
            proof {
                lemma_decoded_push(before, (key, sheet));
            }
            loading.decoded.len() - 1
        },
    };
    proof {
        if at is Some {
            lemma_first_index_range(decoded_keys(decoded_view(before)), found.key@);
            assert(decoded_keys(decoded_view(before))[index as int] == before[index as int].0@);
        }
    }
    assert(loading.decoded@[index as int].1.rgba@.len() == rgba_len(
        loading.decoded@[index as int].1.width,
        loading.decoded@[index as int].1.height,
    ));
    let sheet = match framed(&loading.decoded[index].1, a, w, h, name) {
        Ok(s) => s,
        Err(e) => return Err(e),
    };
    loading.total = total;
    let ghost shown = loading.sheets@;
    let entry_name = name.clone();
    loading.sheets.push((entry_name, sheet));
    proof {
        lemma_sheets_push(shown, (entry_name, sheet));
    }
    Ok(())
}

/// Under consistency, what was decoded so far from earlier findings agrees with
/// the finding at `i`.
proof fn lemma_consistent_agrees(
    assets: Seq<AssetFile>,
    i: int,
    decoded: Seq<(Vec<u8>, SpriteSheet)>,
    sources: Seq<Seq<u8>>,
)
    requires
        assets_consistent(assets),
        forall|k: int|
            0 <= k < decoded.len() ==> exists|j: int|
                0 <= j < i && read_as(asset_at(assets, j), (#[trigger] decoded[k]).0@, sources[k]),
    ensures
        agrees(asset_at(assets, i), decoded, sources),
{
    if let Some(AssetFile::Found(f)) = asset_at(assets, i) {
        assert forall|k: int|
            0 <= k < decoded.len() && (#[trigger] decoded[k]).0@ == f.key@ implies read_as(
            asset_at(assets, i),
            f.key@,
            sources[k],
        ) by {
            let j = choose|j: int|
                0 <= j < i && read_as(asset_at(assets, j), decoded[k].0@, sources[k]);
            assert(same_file_same_contents(assets[i], assets[j]));
        }
    }
}

proof fn lemma_load_error_persists(m: Manifest, assets: Seq<AssetFile>, k: int, n: int, e: PackFault)
    requires
        0 <= k <= n,
        spec_load_from(m, assets, k) == Err::<Progress, PackFault>(e),
    ensures
        spec_load_from(m, assets, n) == Err::<Progress, PackFault>(e),
    decreases n - k,
{
    if k < n {
        lemma_load_error_persists(m, assets, k, n - 1, e);
    }
}

impl CharacterPack {
    /// Animations, captions and sheets are keyed by name: ascending, each name once.
    pub open spec fn keys_in_order(&self) -> bool {
        &&& self.manifest.keys_in_order()
        &&& names_ascending(names_of(self.sheets@))
    }

    /// Validates a parsed manifest against the pack rules and builds the sprite
    /// sheets from what the platform found for each animation's file (`assets`,
    /// in manifest order). The manifest is keyed by name, as its JSON object is.
    pub fn assemble(root: PathBuf, manifest: Manifest, assets: Vec<AssetFile>) -> (r: Result<
        CharacterPack,
        PackError,
    >)
        requires
            manifest.keys_in_order(),
        ensures
            match r {
                Ok(p) => {
                    &&& p.keys_in_order()
                    &&& p.root == root
                    &&& p.manifest == manifest
                    &&& spec_load(manifest, assets@) == Ok::<Seq<(Seq<char>, Sheet)>, PackFault>(
                        sheets_view(p.sheets@),
                    )
                },
                Err(e) => spec_load(manifest, assets@) == Err::<Seq<(Seq<char>, Sheet)>, PackFault>(
                    e@,
                ),
            },
            match r {
                Ok(p) => {
                    &&& has_idle(p.manifest)
                    &&& forall|k: int|
                        0 <= k < manifest.animations@.len() ==> timing_ok(
                            #[trigger] manifest.animations@[k].1,
                        )
                    &&& p.sheets@.len() == manifest.animations@.len()
                    &&& forall|k: int|
                        0 <= k < p.sheets@.len() ==> (#[trigger] p.sheets@[k]).0@
                            == manifest.animations@[k].0@
                    &&& assets_consistent(assets@) ==> forall|k: int|
                        0 <= k < p.sheets@.len() ==> is_strip(
                            (#[trigger] p.sheets@[k]).1@,
                            manifest.animations@[k].1,
                            manifest.sprite_size[0],
                            manifest.sprite_size[1],
                        )
                },
                Err(_) => true,
            },
    {
        if manifest.id.as_str().is_empty() || manifest.name.as_str().as_bytes().len() > MAX_NAME_BYTES
            || manifest.animations.len() > MAX_ANIMATIONS {
            return Err(PackError::InvalidMetadata);
        }
        let w = manifest.sprite_size[0];
        let h = manifest.sprite_size[1];
        if w < MIN_SPRITE_SIDE || w > MAX_SPRITE_SIDE || h < MIN_SPRITE_SIDE || h > MAX_SPRITE_SIDE
            || manifest.scale < 1 || manifest.scale > MAX_SCALE {
            return Err(PackError::InvalidDimensions);
        }
        if find_named(&manifest.animations, "idle").is_none() {
            return Err(PackError::MissingIdle);
        }
        let mut loading = Loading {
            total: 0,
            decoded: Vec::new(),
            sources: Ghost(Seq::empty()),
            sheets: Vec::new(),
        };
        proof {
            assert(loading.view().decoded =~= Seq::empty());
            assert(loading.view().sheets =~= Seq::empty());
        }
        let mut i: usize = 0;
        while i < manifest.animations.len()
            invariant
                i <= manifest.animations@.len(),
                loading.wf(),
                w == manifest.sprite_size[0],
                h == manifest.sprite_size[1],
                MIN_SPRITE_SIDE <= w <= MAX_SPRITE_SIDE,
                MIN_SPRITE_SIDE <= h <= MAX_SPRITE_SIDE,
                spec_load_from(manifest, assets@, i as int) == Ok::<Progress, PackFault>(loading.view()),
                metadata_ok(manifest),
                size_ok(manifest),
                has_idle(manifest),
                loading.sheets@.len() == i,
                forall|k: int| 0 <= k < i ==> timing_ok(#[trigger] manifest.animations@[k].1),
                forall|k: int|
                    0 <= k < i ==> (#[trigger] loading.sheets@[k]).0@ == manifest.animations@[k].0@,
                assets_consistent(assets@) ==> forall|k: int|
                    0 <= k < i ==> is_strip(
                        (#[trigger] loading.sheets@[k]).1@,
                        manifest.animations@[k].1,
                        w,
                        h,
                    ),
                forall|k: int|
                    0 <= k < loading.decoded@.len() ==> exists|j: int|
                        0 <= j < i && read_as(
                            asset_at(assets@, j),
                            (#[trigger] loading.decoded@[k]).0@,
                            loading.sources@[k],
                        ),
            decreases manifest.animations@.len() - i,
        {
            let entry = &manifest.animations[i];
            let asset: Option<&AssetFile> = if i < assets.len() {
                Some(&assets[i])
            } else {
                None
            };
            assert(deref_asset(asset) == asset_at(assets@, i as int));
            proof {
                if assets_consistent(assets@) {
                    lemma_consistent_agrees(assets@, i as int, loading.decoded@, loading.sources@);
                }
            }
            let ghost before = loading.view();
            let ghost old_decoded = loading.decoded@;
            match add_animation(&mut loading, w, h, &entry.0, &entry.1, asset) {
                Ok(()) => {},
                Err(e) => {
                    proof {
                        assert(spec_load_from(manifest, assets@, i + 1) == Err::<Progress, PackFault>(e@));
                        lemma_load_error_persists(
                            manifest,
                            assets@,
                            i + 1,
                            manifest.animations@.len() as int,
                            e@,
                        );
                    }
                    return Err(e);
                },
            }
            proof {
                assert forall|k: int| 0 <= k < loading.decoded@.len() implies exists|j: int|
                    0 <= j < i + 1 && read_as(
                        asset_at(assets@, j),
                        (#[trigger] loading.decoded@[k]).0@,
                        loading.sources@[k],
                    ) by {
                    if k >= old_decoded.len() {
                        assert(read_as(asset_at(assets@, i as int), loading.decoded@[k].0@, loading.sources@[k]));
                    }
                }
            }
            i = i + 1;
        }
        proof {
            assert(names_of(loading.sheets@) =~= names_of(manifest.animations@));
        }
        Ok(CharacterPack { root, manifest, sheets: loading.sheets })
    }

    /// The animation to play for `requested`, falling back to `idle` when the
    /// pack does not provide it.
    pub fn resolve<'a>(&'a self, requested: &'a str) -> (r: (&'a str, &'a Animation))
        requires
            first_index(names_of(self.manifest.animations@), requested@) >= 0 || has_idle(
                self.manifest,
            ),
        ensures
            ({
                let names = names_of(self.manifest.animations@);
                let i = first_index(names, requested@);
                if i >= 0 {
                    r.0@ == requested@ && *r.1 == self.manifest.animations@[i].1
                } else {
                    r.0@ == "idle"@ && *r.1 == self.manifest.animations@[first_index(
                        names,
                        "idle"@,
                    )].1
                }
            }),
    {
        match find_named(&self.manifest.animations, requested) {
            Some(i) => (requested, &self.manifest.animations[i].1),
            None => {
                let j = match find_named(&self.manifest.animations, "idle") {
                    Some(j) => j,
                    None => {
                        proof {
                            assert(false);
                        }
                        0
                    },
                };
                ("idle", &self.manifest.animations[j].1)
            },
        }
    }

    /// The pack has an animation with this name.
    pub fn provides(&self, name: &str) -> (r: bool)
        ensures
            r == (first_index(names_of(self.manifest.animations@), name@) >= 0),
    {
        find_named(&self.manifest.animations, name).is_some()
    }

    /// The sprite sheet of the named animation.
    pub fn sheet(&self, name: &str) -> (r: Option<&SpriteSheet>)
        ensures
            ({
                let i = first_index(names_of(self.sheets@), name@);
                match r {
                    Some(s) => i >= 0 && *s == self.sheets@[i].1,
                    None => i == -1,
                }
            }),
    {
        match find_named(&self.sheets, name) {
            Some(i) => Some(&self.sheets[i].1),
            None => None,
        }
    }
}

} // verus!