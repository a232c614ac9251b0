//! Validation of level documents before a scene is built from them.
//!
//! The checks run in a fixed order and the first failure is reported:
//! schema version, block count, then per block (in order) coordinate bounds and
//! color format, and last duplicate positions.

use crate::color::{all_hex_digits, hex_digit, is_hex_digit};
use crate::models::{block_views, Block, BlockView, DocumentView, SpaceJSON};
use crate::text::{decimal, push_decimal, push_signed_decimal, signed_decimal};
use std::collections::HashSet;
use vstd::prelude::*;

verus! {

broadcast use vstd::std_specs::hash::group_hash_axioms;

/// The only schema version accepted.
pub const SUPPORTED_SCHEMA_VERSION: u32 = 1;

/// Maximum allowed blocks per level.
pub const MAX_BLOCKS: usize = 10_000;

/// Inclusive bounds of block coordinates, in engine distance units.
pub const MIN_X: i32 = -1000;
pub const MAX_X: i32 = 1000;
pub const MIN_Y: i32 = 0;
pub const MAX_Y: i32 = 1000;
pub const MIN_Z: i32 = -1000;
pub const MAX_Z: i32 = 1000;

/// Why a document was rejected, with what a message about it needs.
#[derive(Debug, Clone)]
pub enum ValidationError {
    InvalidSchemaVersion { version: u32 },
    BlockCountExceeded { count: usize, limit: usize },
    CoordinateOutOfBounds { x: i32, y: i32, z: i32, index: usize },
    InvalidColorFormat { color: String, index: usize },
    DuplicatePosition { x: i32, y: i32, z: i32, index: usize },
}

/// The mathematical content of a [`ValidationError`].
pub enum ValidationErrorView {
    InvalidSchemaVersion { version: u32 },
    BlockCountExceeded { count: usize, limit: usize },
    CoordinateOutOfBounds { x: i32, y: i32, z: i32, index: usize },
    InvalidColorFormat { color: Seq<char>, index: usize },
    DuplicatePosition { x: i32, y: i32, z: i32, index: usize },
}

impl View for ValidationError {
    type V = ValidationErrorView;

    open spec fn view(&self) -> ValidationErrorView {
        match self {
            ValidationError::InvalidSchemaVersion { version } => {
                ValidationErrorView::InvalidSchemaVersion { version: *version }
            },
            ValidationError::BlockCountExceeded { count, limit } => {
                ValidationErrorView::BlockCountExceeded { count: *count, limit: *limit }
            },
            ValidationError::CoordinateOutOfBounds { x, y, z, index } => {
                ValidationErrorView::CoordinateOutOfBounds { x: *x, y: *y, z: *z, index: *index }
            },
            ValidationError::InvalidColorFormat { color, index } => {
                ValidationErrorView::InvalidColorFormat { color: color@, index: *index }
            },
            ValidationError::DuplicatePosition { x, y, z, index } => {
                ValidationErrorView::DuplicatePosition { x: *x, y: *y, z: *z, index: *index }
            },
        }
    }
}

/// The view of a validation result.
pub open spec fn outcome_view(r: Result<(), ValidationError>) -> Result<(), ValidationErrorView> {
    match r {
        Ok(()) => Ok(()),
        Err(e) => Err(e@),
    }
}

/// The machine-readable code of each kind of error.
pub open spec fn error_code_text(e: ValidationErrorView) -> Seq<char> {
    match e {
        ValidationErrorView::InvalidSchemaVersion { .. } => "INVALID_SCHEMA_VERSION"@,
        ValidationErrorView::BlockCountExceeded { .. } => "BLOCK_COUNT_EXCEEDED"@,
        ValidationErrorView::CoordinateOutOfBounds { .. } => "COORDINATE_OUT_OF_BOUNDS"@,
        ValidationErrorView::InvalidColorFormat { .. } => "INVALID_COLOR_FORMAT"@,
        ValidationErrorView::DuplicatePosition { .. } => "DUPLICATE_POSITION"@,
    }
}

/// The human-readable message of an error.
pub open spec fn message_text(e: ValidationErrorView) -> Seq<char> {
    match e {
        ValidationErrorView::InvalidSchemaVersion { version } => "Unsupported schema version: "@
            + decimal(version as nat) + ". Only version 1 is supported."@,
        ValidationErrorView::BlockCountExceeded { count, limit } => "Block count ("@ + decimal(
            count as nat,
        ) + ") exceeds maximum allowed ("@ + decimal(limit as nat) + ")."@,
        ValidationErrorView::CoordinateOutOfBounds { x, y, z, index } => "Block at position ("@
            + signed_decimal(x as int) + ", "@ + signed_decimal(y as int) + ", "@ + signed_decimal(
            z as int,
        ) + ") [index "@ + decimal(index as nat)
            + "] is out of bounds. Valid range: X/Z: -1000 to 1000, Y: 0 to 1000."@,
        ValidationErrorView::InvalidColorFormat { color, index } => "Invalid color format '"@
            + color + "' at block index "@ + decimal(index as nat)
            + ". Expected hex format: #RRGGBB or #RGB."@,
        ValidationErrorView::DuplicatePosition { x, y, z, index } => "Duplicate block position ("@
            + signed_decimal(x as int) + ", "@ + signed_decimal(y as int) + ", "@ + signed_decimal(
            z as int,
        ) + ") found at index "@ + decimal(index as nat)
            + ". Each block must have a unique position."@,
    }
}

impl ValidationError {
    /// Returns a machine-readable error code for API responses.
    pub fn error_code(&self) -> (r: &'static str)
        ensures
            r@ == error_code_text(self@),
    {
        match self {
            ValidationError::InvalidSchemaVersion { .. } => "INVALID_SCHEMA_VERSION",
            ValidationError::BlockCountExceeded { .. } => "BLOCK_COUNT_EXCEEDED",
            ValidationError::CoordinateOutOfBounds { .. } => "COORDINATE_OUT_OF_BOUNDS",
            ValidationError::InvalidColorFormat { .. } => "INVALID_COLOR_FORMAT",
            ValidationError::DuplicatePosition { .. } => "DUPLICATE_POSITION",
        }
    }

    /// Returns a human-readable error message for display to users.
    pub fn message(&self) -> (r: String)
        ensures
            r@ == message_text(self@),
    {
        let mut out = String::new();
        match self {
            ValidationError::InvalidSchemaVersion { version } => {
                out.append("Unsupported schema version: ");
                push_decimal(&mut out, *version as u64);
                out.append(". Only version 1 is supported.");
            },
            ValidationError::BlockCountExceeded { count, limit } => {
                out.append("Block count (");
                push_decimal(&mut out, *count as u64);
                out.append(") exceeds maximum allowed (");
                push_decimal(&mut out, *limit as u64);
                out.append(").");
            },
            ValidationError::CoordinateOutOfBounds { x, y, z, index } => {
                out.append("Block at position (");
                push_signed_decimal(&mut out, *x);
                out.append(", ");
                push_signed_decimal(&mut out, *y);
                out.append(", ");
                push_signed_decimal(&mut out, *z);
                out.append(") [index ");
                push_decimal(&mut out, *index as u64);
                out.append("] is out of bounds. Valid range: X/Z: -1000 to 1000, Y: 0 to 1000.");
            },
            ValidationError::InvalidColorFormat { color, index } => {
                out.append("Invalid color format '");
                out.append(color.as_str());
                out.append("' at block index ");
                push_decimal(&mut out, *index as u64);
                out.append(". Expected hex format: #RRGGBB or #RGB.");
            },
            ValidationError::DuplicatePosition { x, y, z, index } => {
                out.append("Duplicate block position (");
                push_signed_decimal(&mut out, *x);
                out.append(", ");
                push_signed_decimal(&mut out, *y);
                out.append(", ");
                push_signed_decimal(&mut out, *z);
                out.append(") found at index ");
                push_decimal(&mut out, *index as u64);
                out.append(". Each block must have a unique position.");
            },
        }
        assert(out@ =~= message_text(self@));
        out
    }
}

/// The coordinates lie within the inclusive bounds on every axis.
pub open spec fn coordinates_in_bounds(x: int, y: int, z: int) -> bool {
    &&& MIN_X <= x <= MAX_X
    &&& MIN_Y <= y <= MAX_Y
    &&& MIN_Z <= z <= MAX_Z
}

/// A `#` followed by exactly three or six hexadecimal digits.
pub open spec fn is_valid_color_format(s: Seq<char>) -> bool {
    &&& s.len() == 4 || s.len() == 7
    &&& s[0] == '#'
    &&& all_hex_digits(s.drop_first())
}

/// A block passes both per-block checks.
pub open spec fn block_is_valid(b: BlockView) -> bool {
    coordinates_in_bounds(b.x as int, b.y as int, b.z as int) && is_valid_color_format(b.color)
}

/// The error that the per-block checks report for block `b` at `index`.
pub open spec fn block_error(b: BlockView, index: usize) -> ValidationErrorView {
    if !coordinates_in_bounds(b.x as int, b.y as int, b.z as int) {
        ValidationErrorView::CoordinateOutOfBounds { x: b.x, y: b.y, z: b.z, index }
    } else {
        ValidationErrorView::InvalidColorFormat { color: b.color, index }
    }
}

/// Block `i` is the first block that fails a per-block check.
pub open spec fn is_first_invalid_block(bs: Seq<BlockView>, i: int) -> bool {
    &&& 0 <= i < bs.len()
    &&& !block_is_valid(bs[i])
    &&& forall|j: int| 0 <= j < i ==> #[trigger] block_is_valid(bs[j])
}

/// Two blocks occupy the same position.
pub open spec fn same_position(a: BlockView, b: BlockView) -> bool {
    a.x == b.x && a.y == b.y && a.z == b.z
}

/// The first `n` blocks occupy pairwise different positions.
pub open spec fn positions_distinct(bs: Seq<BlockView>, n: int) -> bool {
    forall|a: int, b: int| 0 <= a < b < n ==> !same_position(#[trigger] bs[a], #[trigger] bs[b])
}

/// Block `k` is the first block whose position an earlier block already holds.
pub open spec fn is_first_repeat(bs: Seq<BlockView>, k: int) -> bool {
    &&& 0 <= k < bs.len()
    &&& positions_distinct(bs, k)
    &&& exists|j: int| 0 <= j < k && same_position(#[trigger] bs[j], bs[k])
}

/// The error reported for the first repeated position, at the index of the
/// repetition (the second occurrence).
pub open spec fn duplicate_error(bs: Seq<BlockView>, k: int) -> ValidationErrorView {
    ValidationErrorView::DuplicatePosition { x: bs[k].x, y: bs[k].y, z: bs[k].z, index: k as usize }
}

/// The result of validating a document: the first failing check in the fixed
/// order, or success.
pub open spec fn validation_outcome(d: DocumentView) -> Result<(), ValidationErrorView> {
    let bs = d.blocks;
    if d.schema_version != SUPPORTED_SCHEMA_VERSION {
        Err(ValidationErrorView::InvalidSchemaVersion { version: d.schema_version })
    } else if bs.len() > MAX_BLOCKS {
        Err(ValidationErrorView::BlockCountExceeded { count: bs.len() as usize, limit: MAX_BLOCKS })
    } else if exists|i: int| is_first_invalid_block(bs, i) {
        let i = choose|i: int| is_first_invalid_block(bs, i);
        Err(block_error(bs[i], i as usize))
    } else if exists|k: int| is_first_repeat(bs, k) {
        let k = choose|k: int| is_first_repeat(bs, k);
        Err(duplicate_error(bs, k))
    } else {
        Ok(())
    }
}

/// Validates that the schema version is the supported one (1).
pub fn validate_schema_version(schema_version: u32) -> (r: Result<(), ValidationError>)
    ensures
        r is Ok <==> schema_version == SUPPORTED_SCHEMA_VERSION,
        r is Err ==> r == Err::<(), ValidationError>(
            ValidationError::InvalidSchemaVersion { version: schema_version },
        ),
{
    if schema_version != SUPPORTED_SCHEMA_VERSION {
        return Err(ValidationError::InvalidSchemaVersion { version: schema_version });
    }
    Ok(())
}

/// Validates that the block count does not exceed [`MAX_BLOCKS`].
pub fn validate_block_count(count: usize) -> (r: Result<(), ValidationError>)
    ensures
        r is Ok <==> count <= MAX_BLOCKS,
        r is Err ==> r == Err::<(), ValidationError>(
            ValidationError::BlockCountExceeded { count, limit: MAX_BLOCKS },
        ),
{
    if count > MAX_BLOCKS {
        return Err(ValidationError::BlockCountExceeded { count, limit: MAX_BLOCKS });
    }
    Ok(())
}

/// Validates that block coordinates are within the inclusive bounds
/// X/Z: -1000 to 1000, Y: 0 to 1000.
pub fn validate_coordinate_bounds(x: i32, y: i32, z: i32, index: usize) -> (r: Result<
    (),
    ValidationError,
>)
    ensures
        r is Ok <==> coordinates_in_bounds(x as int, y as int, z as int),
        r is Err ==> r == Err::<(), ValidationError>(
            ValidationError::CoordinateOutOfBounds { x, y, z, index },
        ),
{
    if x < MIN_X || x > MAX_X || z < MIN_Z || z > MAX_Z || y < MIN_Y || y > MAX_Y {
        return Err(ValidationError::CoordinateOutOfBounds { x, y, z, index });
    }
    Ok(())
}

/// Validates the hex color format `#RRGGBB` or `#RGB`.
pub fn validate_color_format(color: &str, index: usize) -> (r: Result<(), ValidationError>)
    ensures
        r is Ok <==> is_valid_color_format(color@),
        r is Err ==> outcome_view(r) == Err::<(), ValidationErrorView>(
            ValidationErrorView::InvalidColorFormat { color: color@, index },
        ),
{
    let n = color.unicode_len();
    if n == 0 || color.get_char(0) != '#' || (n != 4 && n != 7) {
        return Err(ValidationError::InvalidColorFormat { color: color.to_string(), index });
    }
    let ghost hex = color@.drop_first();
    let mut i: usize = 1;
    while i < n
        invariant
            1 <= i <= n,
            n == color@.len(),
            hex == color@.drop_first(),
            forall|k: int| 0 <= k < i - 1 ==> #[trigger] is_hex_digit(hex[k]),
        decreases n - i,
    {
        let c = color.get_char(i);
        assert(c == hex[i - 1]);
        if hex_digit(c).is_none() {
            assert(!is_hex_digit(hex[i - 1]));
            return Err(ValidationError::InvalidColorFormat { color: color.to_string(), index });
        }
        i = i + 1;
    }
    Ok(())
}

/// A number that identifies a position: each coordinate, shifted to be
/// non-negative, takes its own 32 bits.
spec fn position_key(b: BlockView) -> int {
    (b.x as int + 0x8000_0000) * 0x1_0000_0000_0000_0000 + (b.y as int + 0x8000_0000)
        * 0x1_0000_0000 + (b.z as int + 0x8000_0000)
}

proof fn lemma_position_key_injective(a: BlockView, b: BlockView)
    ensures
        position_key(a) == position_key(b) <==> same_position(a, b),
        0 <= position_key(a) < 0x1_0000_0000_0000_0000_0000_0000,
{
}

fn position_key_of(b: &Block) -> (k: u128)
    ensures
        k as int == position_key(b@),
{
    let x = (b.x as i64 + 0x8000_0000) as u128;
    let y = (b.y as i64 + 0x8000_0000) as u128;
    let z = (b.z as i64 + 0x8000_0000) as u128;
    x * 0x1_0000_0000_0000_0000 + y * 0x1_0000_0000 + z
}

proof fn lemma_first_repeat_unique(bs: Seq<BlockView>, k1: int, k2: int)
    requires
        is_first_repeat(bs, k1),
        is_first_repeat(bs, k2),
    ensures
        k1 == k2,
{
    if k1 < k2 {
        let j = choose|j: int| 0 <= j < k1 && same_position(#[trigger] bs[j], bs[k1]);
        assert(!same_position(bs[j], bs[k1]));
    } else if k2 < k1 {
        let j = choose|j: int| 0 <= j < k2 && same_position(#[trigger] bs[j], bs[k2]);
        assert(!same_position(bs[j], bs[k2]));
    }
}

proof fn lemma_first_invalid_unique(bs: Seq<BlockView>, i1: int, i2: int)
    requires
        is_first_invalid_block(bs, i1),
        is_first_invalid_block(bs, i2),
    ensures
        i1 == i2,
{
    if i1 < i2 {
        assert(block_is_valid(bs[i1]));
    } else if i2 < i1 {
        assert(block_is_valid(bs[i2]));
    }
}

/// Validates that no two blocks occupy the same position. The error names the
/// first block whose position an earlier block already holds: the second
/// occurrence of the position, never the first.
pub fn validate_no_duplicates(blocks: &[Block]) -> (r: Result<(), ValidationError>)
    ensures
        r is Ok <==> positions_distinct(block_views(blocks@), blocks@.len() as int),
        r is Err ==> exists|k: int|
            {
                &&& is_first_repeat(block_views(blocks@), k)
                &&& outcome_view(r) == Err::<(), ValidationErrorView>(
                    duplicate_error(block_views(blocks@), k),
                )
            },
{
    let ghost bs = block_views(blocks@);
    let mut seen: HashSet<u128> = HashSet::new();
    let mut i: usize = 0;
    while i < blocks.len()
        invariant
            i <= blocks@.len(),
            bs == block_views(blocks@),
            positions_distinct(bs, i as int),
            forall|j: int| 0 <= j < i ==> seen@.contains(#[trigger] position_key(bs[j]) as u128),
            forall|k: u128| #[trigger]
                seen@.contains(k) ==> exists|j: int| 0 <= j < i && k as int == position_key(bs[j]),
        decreases blocks@.len() - i,
    {
        let key = position_key_of(&blocks[i]);
        assert(bs[i as int] == blocks@[i as int]@);
        if seen.contains(&key) {
            proof {
                let j = choose|j: int| 0 <= j < i && key as int == position_key(bs[j]);
                lemma_position_key_injective(bs[j], bs[i as int]);
                assert(is_first_repeat(bs, i as int));
            }
            return Err(
                ValidationError::DuplicatePosition {
                    x: blocks[i].x,
                    y: blocks[i].y,
                    z: blocks[i].z,
                    index: i,
                },
            );
        }
        proof {
            assert forall|a: int, b: int| 0 <= a < b < i + 1 implies !same_position(
                #[trigger] bs[a],
                #[trigger] bs[b],
            ) by {
                if b == i {
                    lemma_position_key_injective(bs[a], bs[b]);
                    lemma_position_key_injective(bs[a], bs[a]);
                    assert(seen@.contains(position_key(bs[a]) as u128));
                }
            }
        }
        seen.insert(key);
        i = i + 1;
    }
    Ok(())
}

/// The coordinate bounds are inclusive: with the other two coordinates in
/// bounds, a coordinate exactly at the minimum or the maximum of its axis is
/// accepted, and one a unit beyond either is rejected.
pub proof fn lemma_bounds_inclusive(x: int, y: int, z: int)
    requires
        coordinates_in_bounds(x, y, z),
    ensures
        coordinates_in_bounds(MIN_X as int, y, z),
        coordinates_in_bounds(MAX_X as int, y, z),
        !coordinates_in_bounds(MIN_X - 1, y, z),
        !coordinates_in_bounds(MAX_X + 1, y, z),
        coordinates_in_bounds(x, MIN_Y as int, z),
        coordinates_in_bounds(x, MAX_Y as int, z),
        !coordinates_in_bounds(x, MIN_Y - 1, z),
        !coordinates_in_bounds(x, MAX_Y + 1, z),
        coordinates_in_bounds(x, y, MIN_Z as int),
        coordinates_in_bounds(x, y, MAX_Z as int),
        !coordinates_in_bounds(x, y, MIN_Z - 1),
        !coordinates_in_bounds(x, y, MAX_Z + 1),
{
}

/// Validates an entire document, running the checks in order and returning the
/// first error found (fail-fast):
/// 1. schema version,
/// 2. block count,
/// 3. each block's coordinates, then its color, block by block,
/// 4. no duplicate positions.
pub fn validate_space_json(space_json: &SpaceJSON) -> (r: Result<(), ValidationError>)
    ensures
        outcome_view(r) == validation_outcome(space_json@),
{
    let ghost d = space_json@;
    let ghost bs = d.blocks;
    match validate_schema_version(space_json.schema_version) {
        Ok(()) => {},
        Err(e) => {
            return Err(e);
        },
    }
    match validate_block_count(space_json.blocks.len()) {
        Ok(()) => {},
        Err(e) => {
            return Err(e);
        },
    }
    let mut index: usize = 0;
    while index < space_json.blocks.len()
        invariant
            index <= space_json.blocks@.len(),
            d == space_json@,
            d.schema_version == SUPPORTED_SCHEMA_VERSION,
            bs.len() <= MAX_BLOCKS,
            bs == d.blocks,
            bs.len() == space_json.blocks@.len(),
            forall|j: int| 0 <= j < index ==> #[trigger] block_is_valid(bs[j]),
        decreases space_json.blocks@.len() - index,
    {
        let block = &space_json.blocks[index];
        assert(bs[index as int] == block@);
        let checked = match validate_coordinate_bounds(block.x, block.y, block.z, index) {
            Ok(()) => validate_color_format(block.color.as_str(), index),
            Err(e) => Err(e),
        };
        if checked.is_err() {
            proof {
                assert(is_first_invalid_block(bs, index as int));
                let i = choose|i: int| is_first_invalid_block(bs, i);
                lemma_first_invalid_unique(bs, i, index as int);
            }
            return checked;
        }
        index = index + 1;
    }
    assert(!exists|i: int| is_first_invalid_block(bs, i));
    let r = validate_no_duplicates(space_json.blocks.as_slice());
    proof {
        if r is Err {
            let k = choose|k: int| is_first_repeat(bs, k);
            let k2 = choose|k: int|
                {
                    &&& is_first_repeat(block_views(space_json.blocks@), k)
                    &&& outcome_view(r) == Err::<(), ValidationErrorView>(
                        duplicate_error(block_views(space_json.blocks@), k),
                    )
                };
            lemma_first_repeat_unique(bs, k, k2);
        } else {
            assert forall|k: int| !is_first_repeat(bs, k) by {
                if is_first_repeat(bs, k) {
                    let j = choose|j: int| 0 <= j < k && same_position(#[trigger] bs[j], bs[k]);
                    assert(!same_position(bs[j], bs[k]));
                }
            }
        }
    }
    r
}

} // verus!
