//! Renderings that the platform crate defines: the debug forms of its record
//! types and flag sets, and the names of its error numbers.
use vstd::prelude::*;
use crate::numbers::{MAP_SIZE, STAT_SIZE, TIMESPEC_SIZE};

verus! {

/// Debug form of a memory-map descriptor read from these bytes.
pub uninterp spec fn map_debug(bytes: Seq<u8>) -> Seq<char>;

/// Debug form of a file-status record read from these bytes.
pub uninterp spec fn stat_debug(bytes: Seq<u8>) -> Seq<char>;

/// Debug form of a time-spec record read from these bytes.
pub uninterp spec fn timespec_debug(bytes: Seq<u8>) -> Seq<char>;

/// Debug form of the clone flag set for these bits, or `None`.
pub uninterp spec fn clone_flags_debug(bits: usize) -> Seq<char>;

/// Debug form of the map flag set for these bits, or `None`.
pub uninterp spec fn map_flags_debug(bits: usize) -> Seq<char>;

/// Debug form of the physmap flag set for these bits, or `None`.
pub uninterp spec fn physmap_flags_debug(bits: usize) -> Seq<char>;

/// Debug form of the wait flag set for these bits, or `None`.
pub uninterp spec fn wait_flags_debug(bits: usize) -> Seq<char>;

/// Debug form of a string: quoted, with `str`'s debug escapes.
pub uninterp spec fn str_debug(s: Seq<char>) -> Seq<char>;

/// Text that the platform gives for an error number.
pub uninterp spec fn errno_text(errno: i32) -> Seq<char>;

/// Relies on `String::from_utf8`: it accepts exactly the valid UTF-8 byte
/// sequences, and the string holds the characters they encode.
#[verifier::external_body]
pub(crate) fn utf8_string(b: &[u8]) -> (r: Option<String>)
    ensures
        r is Some <==> vstd::utf8::valid_utf8(b@),
        r is Some ==> r->0@ == vstd::utf8::decode_utf8(b@),
{
    String::from_utf8(b.to_vec()).ok()
}

/// Relies on the `Debug` form of `str`: the result depends on the
/// characters alone.
#[verifier::external_body]
pub(crate) fn debug_text(s: &String) -> (r: String)
    ensures
        r@ == str_debug(s@),
{
    format!("{:?}", s)
}

/// Relies on `syscall::data::Map`'s byte view and derived `Debug`.
#[verifier::external_body]
pub(crate) fn map_text(b: &[u8]) -> (r: String)
    requires
        b@.len() == MAP_SIZE,
    ensures
        r@ == map_debug(b@),
{
    let mut m = syscall::data::Map::default();
    m.copy_from_slice(b);
    format!("{:?}", m)
}

/// Relies on `syscall::data::Stat`'s byte view and derived `Debug`.
#[verifier::external_body]
pub(crate) fn stat_text(b: &[u8]) -> (r: String)
    requires
        b@.len() == STAT_SIZE,
    ensures
        r@ == stat_debug(b@),
{
    let mut st = syscall::data::Stat::default();
    st.copy_from_slice(b);
    format!("{:?}", st)
}

/// Relies on `syscall::data::TimeSpec`'s byte view and derived `Debug`.
#[verifier::external_body]
pub(crate) fn timespec_text(b: &[u8]) -> (r: String)
    requires
        b@.len() == TIMESPEC_SIZE,
    ensures
        r@ == timespec_debug(b@),
{
    let mut t = syscall::data::TimeSpec::default();
    t.copy_from_slice(b);
    format!("{:?}", t)
}

/// Relies on `syscall::CloneFlags::from_bits` and the `Debug` of its result.
#[verifier::external_body]
pub(crate) fn clone_flags_text(bits: usize) -> (r: String)
    ensures
        r@ == clone_flags_debug(bits),
{
    format!("{:?}", syscall::CloneFlags::from_bits(bits))
}

/// Relies on `syscall::MapFlags::from_bits` and the `Debug` of its result.
#[verifier::external_body]
pub(crate) fn map_flags_text(bits: usize) -> (r: String)
    ensures
        r@ == map_flags_debug(bits),
{
    format!("{:?}", syscall::MapFlags::from_bits(bits))
}

/// Relies on `syscall::PhysmapFlags::from_bits` and the `Debug` of its result.
#[verifier::external_body]
pub(crate) fn physmap_flags_text(bits: usize) -> (r: String)
    ensures
        r@ == physmap_flags_debug(bits),
{
    format!("{:?}", syscall::PhysmapFlags::from_bits(bits))
}

/// Relies on `syscall::WaitFlags::from_bits` and the `Debug` of its result.
#[verifier::external_body]
pub(crate) fn wait_flags_text(bits: usize) -> (r: String)
    ensures
        r@ == wait_flags_debug(bits),
{
    format!("{:?}", syscall::WaitFlags::from_bits(bits))
}

/// Relies on `syscall::Error::text`: the table entry for the number, or
/// "Unknown Error" outside the table.
#[verifier::external_body]
pub(crate) fn error_text(errno: i32) -> (r: String)
    ensures
        r@ == errno_text(errno),
{
    String::from(syscall::Error::new(errno).text())
}

} // verus!
