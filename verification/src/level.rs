//! The level store: platforms, the player's start, and the binary format
//! in which a level is kept.
//!
//! A level file is the four bytes `sgld`, a two-byte version, the player's
//! start as two numbers, and one twenty-byte record of five numbers for each
//! platform. Every number is written least significant byte first.

use crate::collision::{rect_in_rect, rects_overlap};
use crate::draw::{Colour, Rectangle};
use crate::scalar::{Scalar, Vec2, ONE_BITS};
use vstd::prelude::*;
use vstd::slice::slice_subrange;

verus! {

/// The only version of the format that is written and read.
pub const FORMAT_VERSION: u16 = 1;

/// The number of bytes before the first platform record.
pub const HEADER_LEN: usize = 14;

/// The number of bytes of one platform record.
pub const RECORD_LEN: usize = 20;

/// A rectangle to stand on.
#[derive(Clone, Copy, Debug, PartialEq, Eq, Structural)]
pub struct Platform {
    pub pos: Vec2,
    pub size: Vec2,
    pub friction: Scalar,
}

/// Why a sequence of bytes is no level file.
#[derive(Clone, Copy, Debug, PartialEq, Eq, Structural)]
pub enum FormatError {
    /// The bytes end inside the header.
    Truncated,
    /// The first four bytes are not `sgld`.
    BadMagic,
    /// The version is not `FORMAT_VERSION`.
    UnsupportedVersion(u16),
    /// What follows the header is not a whole number of records.
    TrailingBytes,
}

/// An ordered list of platforms and the point where the player starts.
#[derive(Debug, PartialEq)]
pub struct Level {
    platforms: Vec<Platform>,
    player_start: Vec2,
}

/// What a level holds.
pub struct LevelView {
    pub platforms: Seq<Platform>,
    pub player_start: Vec2,
}

/// The four bytes that open a level file.
pub open spec fn magic() -> Seq<u8> {
    seq![115u8, 103u8, 108u8, 100u8]
}

/// The two bytes of a 16-bit number, least significant first.
pub open spec fn half_bytes(x: u16) -> Seq<u8> {
    seq![(x % 256) as u8, (x / 256) as u8]
}

/// The 16-bit number whose two bytes start at `at`.
pub open spec fn half_at(s: Seq<u8>, at: int) -> u16 {
    (s[at] as int + 256 * (s[at + 1] as int)) as u16
}

/// The four bytes of a 32-bit number, least significant first.
pub open spec fn word_bytes(x: u32) -> Seq<u8> {
    seq![
        (x % 256) as u8,
        (x / 256 % 256) as u8,
        (x / 65536 % 256) as u8,
        (x / 16777216) as u8,
    ]
}

/// The 32-bit number whose four bytes start at `at`.
pub open spec fn word_at(s: Seq<u8>, at: int) -> u32 {
    (s[at] as int + 256 * (s[at + 1] as int) + 65536 * (s[at + 2] as int) + 16777216 * (s[at
        + 3] as int)) as u32
}

/// The eight bytes of a pair of numbers, `x` first.
pub open spec fn vec2_bytes(v: Vec2) -> Seq<u8> {
    word_bytes(v.x.bits) + word_bytes(v.y.bits)
}

/// The pair of numbers whose eight bytes start at `at`.
pub open spec fn vec2_at(s: Seq<u8>, at: int) -> Vec2 {
    Vec2 { x: Scalar { bits: word_at(s, at) }, y: Scalar { bits: word_at(s, at + 4) } }
}

/// The record of a platform: position, size, friction.
pub open spec fn platform_bytes(p: Platform) -> Seq<u8> {
    word_bytes(p.pos.x.bits) + word_bytes(p.pos.y.bits) + word_bytes(p.size.x.bits) + word_bytes(
        p.size.y.bits,
    ) + word_bytes(p.friction.bits)
}

/// The platform whose record starts at `at`.
pub open spec fn platform_at(s: Seq<u8>, at: int) -> Platform {
    Platform { pos: vec2_at(s, at), size: vec2_at(s, at + 8), friction: Scalar {
        bits: word_at(s, at + 16),
    } }
}

/// The records of a list of platforms, one after the other.
pub open spec fn records_bytes(ps: Seq<Platform>) -> Seq<u8> {
    Seq::new(20 * ps.len(), |k: int| platform_bytes(ps[k / 20])[k % 20])
}

/// The bytes of a level file.
pub open spec fn level_bytes(l: LevelView) -> Seq<u8> {
    magic() + half_bytes(FORMAT_VERSION) + vec2_bytes(l.player_start) + records_bytes(l.platforms)
}

/// Whether the first four bytes are there and spell `sgld`.
pub open spec fn has_magic(s: Seq<u8>) -> bool {
    s.len() >= 4 && s[0] == 115 && s[1] == 103 && s[2] == 108 && s[3] == 100
}

/// What a sequence of bytes holds: a level, or the first reason why not.
pub open spec fn parsed(s: Seq<u8>) -> Result<LevelView, FormatError> {
    if s.len() < 4 {
        Err(FormatError::Truncated)
    } else if !has_magic(s) {
        Err(FormatError::BadMagic)
    } else if s.len() < 6 {
        Err(FormatError::Truncated)
    } else if half_at(s, 4) != FORMAT_VERSION {
        Err(FormatError::UnsupportedVersion(half_at(s, 4)))
    } else if s.len() < 14 {
        Err(FormatError::Truncated)
    } else if (s.len() - 14) % 20 != 0 {
        Err(FormatError::TrailingBytes)
    } else {
        Ok(
            LevelView {
                platforms: Seq::new(((s.len() - 14) / 20) as nat, |i: int| platform_at(s, 14 + 20 * i)),
                player_start: vec2_at(s, 6),
            },
        )
    }
}

/// A platform moved by `delta`.
pub open spec fn shifted(p: Platform, delta: Vec2) -> Platform {
    Platform { pos: p.pos.spec_plus(delta), size: p.size, friction: p.friction }
}

/// The platforms after each one whose index is among `indices` was moved by
/// `delta`.
pub open spec fn moved(ps: Seq<Platform>, indices: Seq<usize>, delta: Vec2) -> Seq<Platform> {
    Seq::new(
        ps.len(),
        |i: int|
            if indices.contains(i as usize) {
                shifted(ps[i], delta)
            } else {
                ps[i]
            },
    )
}

/// Whether every index names a platform of a list of length `len`.
pub open spec fn all_below(indices: Seq<usize>, len: nat) -> bool {
    forall|k: int| 0 <= k < indices.len() ==> (#[trigger] indices[k]) < len
}

/// The indices, in order, of the platforms that overlap the rectangle at
/// `pos` of extent `size`.
pub open spec fn overlapping(ps: Seq<Platform>, pos: Vec2, size: Vec2) -> Seq<usize>
    decreases ps.len(),
{
    if ps.len() == 0 {
        Seq::empty()
    } else {
        let before = overlapping(ps.drop_last(), pos, size);
        if rects_overlap(ps.last().pos, ps.last().size, pos, size) {
            before.push((ps.len() - 1) as usize)
        } else {
            before
        }
    }
}

/// The platforms as white rectangles, in their order.
pub open spec fn drawn(ps: Seq<Platform>) -> Seq<Rectangle> {
    Seq::new(
        ps.len(),
        |i: int| Rectangle { pos: ps[i].pos, size: ps[i].size, colour: Colour::White },
    )
}

/// Whether `index` is among `selection`.
pub fn is_selected(selection: &[usize], index: usize) -> (found: bool)
    ensures
        found == selection@.contains(index),
{
    let mut k: usize = 0;
    while k < selection.len()
        invariant
            k <= selection@.len(),
            forall|j: int| 0 <= j < k ==> selection@[j] != index,
        decreases selection@.len() - k,
    {
        if selection[k] == index {
            return true;
        }
        k += 1;
    }
    false
}

fn word_to_le(x: u32) -> (r: [u8; 4])
    ensures
        r@ == word_bytes(x),
{
    let r: [u8; 4] = [
        (x % 256) as u8,
        (x / 256 % 256) as u8,
        (x / 65536 % 256) as u8,
        (x / 16777216) as u8,
    ];
    assert(r@ =~= word_bytes(x));
    r
}

fn word_from_le(b0: u8, b1: u8, b2: u8, b3: u8) -> (r: u32)
    ensures
        r == b0 as int + 256 * (b1 as int) + 65536 * (b2 as int) + 16777216 * (b3 as int),
{
    (b0 as u32) + 256 * (b1 as u32) + 65536 * (b2 as u32) + 16777216 * (b3 as u32)
}

fn word_in(bytes: &[u8], at: usize) -> (r: u32)
    requires
        at + 4 <= bytes@.len(),
    ensures
        r == word_at(bytes@, at as int),
{
    word_from_le(bytes[at], bytes[at + 1], bytes[at + 2], bytes[at + 3])
}

/// `bytemuck::cast` from two groups of four bytes to eight bytes: a value
/// cast between arrays of bytes of one size keeps the bytes in their order.
#[verifier::external_body]
fn join_pair(words: [[u8; 4]; 2]) -> (out: [u8; 8])
    ensures
        out@ == words@[0]@ + words@[1]@,
{
    bytemuck::cast(words)
}

/// `bytemuck::cast` from five groups of four bytes to twenty bytes: a value
/// cast between arrays of bytes of one size keeps the bytes in their order.
#[verifier::external_body]
fn join_record(words: [[u8; 4]; 5]) -> (out: [u8; 20])
    ensures
        out@ == words@[0]@ + words@[1]@ + words@[2]@ + words@[3]@ + words@[4]@,
{
    bytemuck::cast(words)
}

impl Platform {
    /// A platform with the default friction, one.
    pub fn new(pos: Vec2, size: Vec2) -> (p: Platform)
        ensures
            p == (Platform { pos, size, friction: Scalar { bits: ONE_BITS } }),
    {
        Platform { pos, size, friction: Scalar::one() }
    }

    /// The platform spanned by two opposite corners, whichever they are.
    pub open spec fn spanned(c1: Vec2, c2: Vec2) -> Platform {
        Platform {
            pos: Vec2 { x: c1.x.spec_min(c2.x), y: c1.y.spec_min(c2.y) },
            size: Vec2 {
                x: c1.x.spec_minus(c2.x).spec_abs(),
                y: c1.y.spec_minus(c2.y).spec_abs(),
            },
            friction: Scalar { bits: ONE_BITS },
        }
    }

    pub fn from_corners(c1: Vec2, c2: Vec2) -> (p: Platform)
        ensures
            p == Self::spanned(c1, c2),
            !p.size.x.negative(),
            !p.size.y.negative(),
    {
        let size = c1.minus(c2);
        let size = Vec2::new(size.x.abs(), size.y.abs());
        let pos = Vec2::new(c1.x.min(c2.x), c1.y.min(c2.y));
        Platform { size, pos, friction: Scalar::one() }
    }

    pub fn check_collision(&self, other_pos: Vec2, other_size: Vec2) -> (hit: bool)
        ensures
            hit == rects_overlap(self.pos, self.size, other_pos, other_size),
    {
        rect_in_rect(self.pos, self.size, other_pos, other_size)
    }

    /// The platform as a white rectangle.
    pub fn draw(&self) -> (shape: Rectangle)
        ensures
            shape == (Rectangle { pos: self.pos, size: self.size, colour: Colour::White }),
    {
        Rectangle { pos: self.pos, size: self.size, colour: Colour::White }
    }

    /// The record of this platform.
    pub fn to_bytes(&self) -> (out: [u8; 20])
        ensures
            out@ == platform_bytes(*self),
    {
        let px = word_to_le(self.pos.x.bits);
        let py = word_to_le(self.pos.y.bits);
        let sw = word_to_le(self.size.x.bits);
        let sh = word_to_le(self.size.y.bits);
        let f = word_to_le(self.friction.bits);
        join_record([px, py, sw, sh, f])
    }

    /// The platform whose record opens `bytes`.
    pub fn from_le_bytes(bytes: &[u8]) -> (p: Platform)
        requires
            bytes@.len() >= 20,
        ensures
            p == platform_at(bytes@, 0),
    {
        let pos = Vec2::new(Scalar::from_bits(word_in(bytes, 0)), Scalar::from_bits(word_in(bytes, 4)));
        let size = Vec2::new(
            Scalar::from_bits(word_in(bytes, 8)),
            Scalar::from_bits(word_in(bytes, 12)),
        );
        let friction = Scalar::from_bits(word_in(bytes, 16));
        Platform { pos, size, friction }
    }
}


impl View for Level {
    type V = LevelView;

    closed spec fn view(&self) -> LevelView {
        LevelView { platforms: self.platforms@, player_start: self.player_start }
    }
}

impl Level {
    pub fn new(platforms: Vec<Platform>, player_start: Vec2) -> (level: Level)
        ensures
            level@.platforms == platforms@,
            level@.player_start == player_start,
    {
        Level { platforms, player_start }
    }

    pub fn get_platforms(&self) -> (platforms: &[Platform])
        ensures
            platforms@ == self@.platforms,
    {
        self.platforms.as_slice()
    }

    pub fn player_start(&self) -> (start: Vec2)
        ensures
            start == self@.player_start,
    {
        self.player_start
    }

    /// Appends a platform after those that are there.
    pub fn add_platform(&mut self, platform: Platform)
        ensures
            final(self)@.platforms == old(self)@.platforms.push(platform),
            final(self)@.player_start == old(self)@.player_start,
    {
        self.platforms.push(platform);
    }

    /// Moves by `delta` each platform whose index is among `indices`.
    pub fn move_selected_platforms(&mut self, indices: &[usize], delta: Vec2)
        requires
            all_below(indices@, old(self)@.platforms.len()),
        ensures
            final(self)@.platforms == moved(old(self)@.platforms, indices@, delta),
            final(self)@.player_start == old(self)@.player_start,
    {
        let mut i: usize = 0;
        while i < self.platforms.len()
            invariant
                i <= self.platforms@.len(),
                self.platforms@.len() == old(self)@.platforms.len(),
                self.player_start == old(self).player_start,
                forall|j: int|
                    0 <= j < i ==> self.platforms@[j] == moved(
                        old(self)@.platforms,
                        indices@,
                        delta,
                    )[j],
                forall|j: int|
                    i <= j < self.platforms@.len() ==> self.platforms@[j] == old(
                        self,
                    )@.platforms[j],
            decreases self.platforms@.len() - i,
        {
            if is_selected(indices, i) {
                let p: Platform = self.platforms[i];
                self.platforms.set(
                    i,
                    Platform { pos: p.pos.plus(delta), size: p.size, friction: p.friction },
                );
            }
            i += 1;
        }
        proof {
            assert(self.platforms@ =~= moved(old(self)@.platforms, indices@, delta));
        }
    }

    /// The indices, in order, of the platforms that overlap the rectangle
    /// at `pos` of extent `size`.
    pub fn overlapping_indices(&self, pos: Vec2, size: Vec2) -> (picked: Vec<usize>)
        ensures
            picked@ == overlapping(self@.platforms, pos, size),
            all_below(picked@, self@.platforms.len()),
    {
        let mut picked: Vec<usize> = Vec::new();
        let mut i: usize = 0;
        proof {
            assert(self.platforms@.take(0) =~= Seq::<Platform>::empty());
        }
        while i < self.platforms.len()
            invariant
                i <= self.platforms@.len(),
                picked@ == overlapping(self.platforms@.take(i as int), pos, size),
                all_below(picked@, i as nat),
            decreases self.platforms@.len() - i,
        {
            let p: Platform = self.platforms[i];
            proof {
                assert(self.platforms@.take(i + 1).drop_last() =~= self.platforms@.take(i as int));
                assert(self.platforms@.take(i + 1).last() == self.platforms@[i as int]);
            }
            if p.check_collision(pos, size) {
                picked.push(i);
            }
            i += 1;
        }
        proof {
            assert(self.platforms@.take(i as int) =~= self.platforms@);
        }
        picked
    }

    /// The platforms as white rectangles, in their order.
    pub fn draw(&self) -> (shapes: Vec<Rectangle>)
        ensures
            shapes@ == drawn(self@.platforms),
    {
        let mut shapes: Vec<Rectangle> = Vec::new();
        let mut i: usize = 0;
        while i < self.platforms.len()
            invariant
                i <= self.platforms@.len(),
                shapes@ == drawn(self.platforms@.take(i as int)),
            decreases self.platforms@.len() - i,
        {
            shapes.push(self.platforms[i].draw());
            proof {
                assert(shapes@ =~= drawn(self.platforms@.take(i + 1)));
            }
            i += 1;
        }
        proof {
            assert(self.platforms@.take(i as int) =~= self.platforms@);
        }
        shapes
    }

    /// The bytes of the level file for this level.
    pub fn to_bytes(&self) -> (out: Vec<u8>)
        ensures
            out@ == level_bytes(self@),
    {
        let mut buffer: Vec<u8> = Vec::new();
        buffer.push(115);
        buffer.push(103);
        buffer.push(108);
        buffer.push(100);
        buffer.push((FORMAT_VERSION % 256) as u8);
        buffer.push((FORMAT_VERSION / 256) as u8);
        let player_start: [u8; 8] = join_pair(
            [word_to_le(self.player_start.x.bits), word_to_le(self.player_start.y.bits)],
        );
        buffer.extend_from_slice(player_start.as_slice());
        let ghost header = magic() + half_bytes(FORMAT_VERSION) + vec2_bytes(self.player_start);
        proof {
            assert(buffer@ =~= header + records_bytes(self.platforms@.take(0)));
        }
        let mut i: usize = 0;
        while i < self.platforms.len()
            invariant
                i <= self.platforms@.len(),
                header.len() == 14,
                buffer@ == header + records_bytes(self.platforms@.take(i as int)),
            decreases self.platforms@.len() - i,
        {
            let record: [u8; 20] = self.platforms[i].to_bytes();
            buffer.extend_from_slice(record.as_slice());
            proof {
                let before = self.platforms@.take(i as int);
                let after = self.platforms@.take(i + 1);
                assert(records_bytes(after) =~= records_bytes(before) + platform_bytes(
                    self.platforms@[i as int],
                )) by {
                    assert forall|k: int| 0 <= k < 20 * after.len() implies records_bytes(after)[k]
                        == (records_bytes(before) + platform_bytes(self.platforms@[i as int]))[k] by {
                        if k < 20 * i {
                            assert(after[k / 20] == before[k / 20]);
                        } else {
                            assert(k / 20 == i);
                            assert(k % 20 == k - 20 * i);
                        }
                    }
                }
                assert(buffer@ =~= header + records_bytes(after));
            }
            i += 1;
        }
        proof {
            assert(self.platforms@.take(i as int) =~= self.platforms@);
        }
        buffer
    }

    /// The level that a level file holds, or why the bytes are none.
    pub fn from_bytes(bytes: &[u8]) -> (r: Result<Level, FormatError>)
        ensures
            match r {
                Ok(level) => parsed(bytes@) == Ok::<LevelView, FormatError>(level@),
                Err(e) => parsed(bytes@) == Err::<LevelView, FormatError>(e),
            },
    {
        let n: usize = bytes.len();
        if n < 4 {
            return Err(FormatError::Truncated);
        }
        if bytes[0] != 115 || bytes[1] != 103 || bytes[2] != 108 || bytes[3] != 100 {
            return Err(FormatError::BadMagic);
        }
        if n < 6 {
            return Err(FormatError::Truncated);
        }
        let version: u16 = (bytes[4] as u16) + 256 * (bytes[5] as u16);
        if version != FORMAT_VERSION {
            return Err(FormatError::UnsupportedVersion(version));
        }
        if n < HEADER_LEN {
            return Err(FormatError::Truncated);
        }
        let player_start = Vec2::new(
            Scalar::from_bits(word_in(bytes, 6)),
            Scalar::from_bits(word_in(bytes, 10)),
        );
        if (n - HEADER_LEN) % RECORD_LEN != 0 {
            return Err(FormatError::TrailingBytes);
        }
        let count: usize = (n - HEADER_LEN) / RECORD_LEN;
        let mut platforms: Vec<Platform> = Vec::new();
        let mut i: usize = 0;
        while i < count
            invariant
                i <= count,
                n == bytes@.len(),
                n >= 14,
                count == (n - 14) / 20,
                (n - 14) % 20 == 0,
                platforms@ == Seq::new(i as nat, |k: int| platform_at(bytes@, 14 + 20 * k)),
            decreases count - i,
        {
            let record = slice_subrange(bytes, HEADER_LEN + RECORD_LEN * i, HEADER_LEN + RECORD_LEN * i + RECORD_LEN);
            let platform = Platform::from_le_bytes(record);
            platforms.push(platform);
            proof {
                assert(platform == platform_at(bytes@, 14 + 20 * i));
                assert(platforms@ =~= Seq::new((i + 1) as nat, |k: int| platform_at(bytes@, 14 + 20 * k)));
            }
            i += 1;
        }
        Ok(Level { platforms, player_start })
    }
}


/// Reading back a number that was written gives the number.
pub proof fn lemma_word_round_trip(s: Seq<u8>, at: int, x: u32)
    requires
        0 <= at,
        at + 4 <= s.len(),
        s.subrange(at, at + 4) == word_bytes(x),
    ensures
        word_at(s, at) == x,
{
    let w = s.subrange(at, at + 4);
    assert(w[0] == s[at] && w[1] == s[at + 1] && w[2] == s[at + 2] && w[3] == s[at + 3]);
}

/// Reading back a record that was written gives the platform.
pub proof fn lemma_record_round_trip(s: Seq<u8>, at: int, p: Platform)
    requires
        0 <= at,
        at + 20 <= s.len(),
        s.subrange(at, at + 20) == platform_bytes(p),
    ensures
        platform_at(s, at) == p,
{
    let r = platform_bytes(p);
    assert forall|j: int| 0 <= j < 20 implies s[at + j] == #[trigger] r[j] by {
        assert(s.subrange(at, at + 20)[j] == s[at + j]);
    }
    assert(s.subrange(at, at + 4) =~= word_bytes(p.pos.x.bits)) by {
        assert forall|j: int| 0 <= j < 4 implies s.subrange(at, at + 4)[j] == word_bytes(
            p.pos.x.bits,
        )[j] by {
            assert(s[at + j] == r[j]);
        }
    }
    assert(s.subrange(at + 4, at + 8) =~= word_bytes(p.pos.y.bits)) by {
        assert forall|j: int| 0 <= j < 4 implies s.subrange(at + 4, at + 8)[j] == word_bytes(
            p.pos.y.bits,
        )[j] by {
            assert(s[at + (j + 4)] == r[j + 4]);
        }
    }
    assert(s.subrange(at + 8, at + 12) =~= word_bytes(p.size.x.bits)) by {
        assert forall|j: int| 0 <= j < 4 implies s.subrange(at + 8, at + 12)[j] == word_bytes(
            p.size.x.bits,
        )[j] by {
            assert(s[at + (j + 8)] == r[j + 8]);
        }
    }
    assert(s.subrange(at + 12, at + 16) =~= word_bytes(p.size.y.bits)) by {
        assert forall|j: int| 0 <= j < 4 implies s.subrange(at + 12, at + 16)[j] == word_bytes(
            p.size.y.bits,
        )[j] by {
            assert(s[at + (j + 12)] == r[j + 12]);
        }
    }
    assert(s.subrange(at + 16, at + 20) =~= word_bytes(p.friction.bits)) by {
        assert forall|j: int| 0 <= j < 4 implies s.subrange(at + 16, at + 20)[j] == word_bytes(
            p.friction.bits,
        )[j] by {
            assert(s[at + (j + 16)] == r[j + 16]);
        }
    }
    lemma_word_round_trip(s, at, p.pos.x.bits);
    lemma_word_round_trip(s, at + 4, p.pos.y.bits);
    lemma_word_round_trip(s, at + 8, p.size.x.bits);
    lemma_word_round_trip(s, at + 12, p.size.y.bits);
    lemma_word_round_trip(s, at + 16, p.friction.bits);
}

/// Round trip: the bytes written for a level are read back as that level,
/// platform for platform and field for field, with the player's start.
pub proof fn lemma_round_trip(level: LevelView)
    ensures
        parsed(level_bytes(level)) == Ok::<LevelView, FormatError>(level),
{
    let s = level_bytes(level);
    let ps = level.platforms;
    let start = vec2_bytes(level.player_start);
    assert(s.len() == 14 + 20 * ps.len());
    assert(has_magic(s));
    assert(half_at(s, 4) == FORMAT_VERSION);
    assert(s.subrange(6, 10) =~= word_bytes(level.player_start.x.bits));
    assert(s.subrange(10, 14) =~= word_bytes(level.player_start.y.bits));
    lemma_word_round_trip(s, 6, level.player_start.x.bits);
    lemma_word_round_trip(s, 10, level.player_start.y.bits);
    assert(vec2_at(s, 6) == level.player_start);
    let read = Seq::new(((s.len() - 14) / 20) as nat, |i: int| platform_at(s, 14 + 20 * i));
    assert(read.len() == ps.len());
    assert forall|i: int| 0 <= i < ps.len() implies read[i] == ps[i] by {
        assert(s.subrange(14 + 20 * i, 14 + 20 * i + 20) =~= platform_bytes(ps[i])) by {
            assert forall|j: int| 0 <= j < 20 implies s.subrange(14 + 20 * i, 14 + 20 * i + 20)[j]
                == platform_bytes(ps[i])[j] by {
                assert(s[14 + 20 * i + j] == records_bytes(ps)[20 * i + j]);
                assert((20 * i + j) / 20 == i);
                assert((20 * i + j) % 20 == j);
            }
        }
        lemma_record_round_trip(s, 14 + 20 * i, ps[i]);
    }
    assert(read =~= ps);
}

/// Rejection: bytes whose first four are not `sgld`, and bytes whose count
/// after the header is no multiple of the record length, hold no level.
pub proof fn lemma_rejects_malformed(s: Seq<u8>)
    requires
        !has_magic(s) || (s.len() >= 14 && (s.len() - 14) % 20 != 0),
    ensures
        parsed(s) is Err,
        s.len() >= 4 && !has_magic(s) ==> parsed(s) == Err::<LevelView, FormatError>(
            FormatError::BadMagic,
        ),
{
}

/// Move commit: moving keeps the number of platforms and every size and
/// friction; a platform whose index is among `indices` is moved by `delta`,
/// once; every other platform stays as it was.
pub proof fn lemma_moved_platforms(ps: Seq<Platform>, indices: Seq<usize>, delta: Vec2)
    ensures
        moved(ps, indices, delta).len() == ps.len(),
        forall|i: int|
            0 <= i < ps.len() ==> (#[trigger] moved(ps, indices, delta)[i]).size == ps[i].size
                && moved(ps, indices, delta)[i].friction == ps[i].friction,
        forall|i: int|
            0 <= i < ps.len() && indices.contains(i as usize) ==> (#[trigger] moved(
                ps,
                indices,
                delta,
            )[i]).pos == ps[i].pos.spec_plus(delta),
        forall|i: int|
            0 <= i < ps.len() && !indices.contains(i as usize) ==> #[trigger] moved(
                ps,
                indices,
                delta,
            )[i] == ps[i],
{
}

/// What `overlapping` holds: an index is among its result exactly when it
/// names a platform that overlaps the rectangle, and the result ascends.
pub proof fn lemma_overlapping_members(ps: Seq<Platform>, pos: Vec2, size: Vec2)
    requires
        ps.len() <= usize::MAX,
    ensures
        forall|i: int|
            0 <= i < ps.len() ==> (overlapping(ps, pos, size).contains(i as usize)
                <==> #[trigger] rects_overlap(ps[i].pos, ps[i].size, pos, size)),
        all_below(overlapping(ps, pos, size), ps.len()),
        forall|j: int, k: int|
            0 <= j < k < overlapping(ps, pos, size).len() ==> overlapping(ps, pos, size)[j]
                < overlapping(ps, pos, size)[k],
    decreases ps.len(),
{
    let all = overlapping(ps, pos, size);
    if ps.len() > 0 {
        let front = ps.drop_last();
        let before = overlapping(front, pos, size);
        let last = (ps.len() - 1) as usize;
        lemma_overlapping_members(front, pos, size);
        let hit = rects_overlap(ps.last().pos, ps.last().size, pos, size);
        assert forall|i: int| 0 <= i < ps.len() implies (all.contains(i as usize)
            <==> #[trigger] rects_overlap(ps[i].pos, ps[i].size, pos, size)) by {
            if i < front.len() {
                assert(front[i] == ps[i]);
                if before.contains(i as usize) {
                    let k = choose|k: int| 0 <= k < before.len() && before[k] == i as usize;
                    assert(all[k] == i as usize);
                }
                if all.contains(i as usize) {
                    let k = choose|k: int| 0 <= k < all.len() && all[k] == i as usize;
                    if k < before.len() {
                        assert(before[k] == i as usize);
                    }
                }
            } else {
                if hit {
                    assert(all[all.len() - 1] == last);
                }
                if all.contains(i as usize) {
                    let k = choose|k: int| 0 <= k < all.len() && all[k] == i as usize;
                    if k < before.len() {
                        assert(before[k] == all[k]);
                    }
                }
            }
        }
        assert forall|k: int| 0 <= k < all.len() implies (#[trigger] all[k]) < ps.len() by {
            if k < before.len() {
                assert(all[k] == before[k]);
            }
        }
        assert forall|j: int, k: int| 0 <= j < k < all.len() implies all[j] < all[k] by {
            assert(all[j] == before[j]);
            if k < before.len() {
                assert(all[k] == before[k]);
            }
        }
    }
}


/// Writing a number that was read gives back the bytes it was read from.
pub proof fn lemma_word_is_written(s: Seq<u8>, at: int)
    requires
        0 <= at,
        at + 4 <= s.len(),
    ensures
        word_bytes(word_at(s, at)) == s.subrange(at, at + 4),
{
    let b0 = s[at] as int;
    let b1 = s[at + 1] as int;
    let b2 = s[at + 2] as int;
    let b3 = s[at + 3] as int;
    let x = b0 + 256 * b1 + 65536 * b2 + 16777216 * b3;
    assert(0 <= x <= u32::MAX);
    assert(x % 256 == b0);
    assert(x / 256 == b1 + 256 * b2 + 65536 * b3);
    assert(x / 256 % 256 == b1);
    assert(x / 65536 == b2 + 256 * b3);
    assert(x / 65536 % 256 == b2);
    assert(x / 16777216 == b3);
    assert(word_bytes(word_at(s, at)) =~= s.subrange(at, at + 4));
}

/// Writing a platform that was read gives back the record it was read from.
pub proof fn lemma_record_is_written(s: Seq<u8>, at: int)
    requires
        0 <= at,
        at + 20 <= s.len(),
    ensures
        platform_bytes(platform_at(s, at)) == s.subrange(at, at + 20),
{
    lemma_word_is_written(s, at);
    lemma_word_is_written(s, at + 4);
    lemma_word_is_written(s, at + 8);
    lemma_word_is_written(s, at + 12);
    lemma_word_is_written(s, at + 16);
    assert(platform_bytes(platform_at(s, at)) =~= s.subrange(at, at + 4) + s.subrange(
        at + 4,
        at + 8,
    ) + s.subrange(at + 8, at + 12) + s.subrange(at + 12, at + 16) + s.subrange(at + 16, at + 20));
    assert(platform_bytes(platform_at(s, at)) =~= s.subrange(at, at + 20));
}

/// The format has one file for each level: bytes that hold a level are the
/// bytes written for that level.
pub proof fn lemma_parsed_is_written(s: Seq<u8>)
    requires
        parsed(s) is Ok,
    ensures
        level_bytes(parsed(s)->Ok_0) == s,
{
    let level = parsed(s)->Ok_0;
    let written = level_bytes(level);
    let ps = level.platforms;
    assert(written.len() == s.len());
    lemma_word_is_written(s, 6);
    lemma_word_is_written(s, 10);
    assert forall|k: int| 0 <= k < s.len() implies written[k] == s[k] by {
        if k < 4 {
        } else if k < 6 {
            assert(s[4] as int + 256 * (s[5] as int) == 1);
        } else if k < 10 {
            assert(written[k] == word_bytes(level.player_start.x.bits)[k - 6]);
            assert(s.subrange(6, 10)[k - 6] == s[k]);
        } else if k < 14 {
            assert(written[k] == word_bytes(level.player_start.y.bits)[k - 10]);
            assert(s.subrange(10, 14)[k - 10] == s[k]);
        } else {
            let i = (k - 14) / 20;
            let j = (k - 14) % 20;
            assert(written[k] == records_bytes(ps)[k - 14]);
            assert(ps[i] == platform_at(s, 14 + 20 * i));
            lemma_record_is_written(s, 14 + 20 * i);
            assert(s.subrange(14 + 20 * i, 14 + 20 * i + 20)[j] == s[k]);
        }
    }
    assert(written =~= s);
}

} // verus!
