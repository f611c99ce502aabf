//! Settings, read from a `config::Config`.
//!
//! A setting that is missing, or that cannot be read as what is asked for,
//! reads as the empty string or as zero: looking one up never fails.

use vstd::prelude::*;
use vstd::string::*;
use crate::text::chars_of;

verus! {

/// The settings store of the `config` crate, opaque to the verifier.
#[verifier::external_type_specification]
#[verifier::external_body]
pub struct ExConfig(config::Config);

/// The settings of `c` that `Config::get_str` can read, each with the string
/// it reads as.
pub uninterp spec fn config_strings(c: config::Config) -> Map<Seq<char>, Seq<char>>;

/// The settings of `c` that `Config::get_int` can read, each with the
/// integer it reads as.
pub uninterp spec fn config_ints(c: config::Config) -> Map<Seq<char>, i64>;

/// A key that names a setting outright: it holds no opening bracket, and so
/// asks for no item of a list by its number.
pub open spec fn plain_key(k: Seq<char>) -> bool {
    forall|i: int| 0 <= i < k.len() ==> k[i] != '['
}

/// Whether `k` names a setting outright.
pub fn is_plain_key(k: &str) -> (r: bool)
    ensures
        r == plain_key(k@),
{
    let v = chars_of(k);
    let mut i: usize = 0;
    while i < v.len()
        invariant
            i <= v.len(),
            v@ == k@,
            forall|j: int| 0 <= j < i ==> v@[j] != '[',
        decreases v.len() - i,
    {
        if v[i] == '[' {
            assert(k@[i as int] == '[');
            return false;
        }
        i = i + 1;
    }
    true
}

/// `Config::get_str`: the setting `k` as a string, `None` where the crate
/// reports an error (no such setting, or one that is no string). The key
/// must be plain: for a key that counts from the end of a list the crate
/// subtracts without a test and may panic.
#[verifier::external_body]
fn lookup_str(c: &config::Config, k: &str) -> (r: Option<String>)
    requires
        plain_key(k@),
    ensures
        r is Some <==> config_strings(*c).contains_key(k@),
        r matches Some(s) ==> config_strings(*c)[k@] == s@,
{
    c.get_str(k).ok()
}

/// `Config::get_int`: the setting `k` as an integer, `None` where the crate
/// reports an error (no such setting, or one that is no integer). The key
/// must be plain, as for `lookup_str`.
#[verifier::external_body]
fn lookup_int(c: &config::Config, k: &str) -> (r: Option<i64>)
    requires
        plain_key(k@),
    ensures
        r is Some <==> config_ints(*c).contains_key(k@),
        r matches Some(v) ==> config_ints(*c)[k@] == v,
{
    c.get_int(k).ok()
}

/// The string that the setting `k` reads as; empty where there is none, and
/// where the key is not plain.
pub open spec fn string_setting(c: config::Config, k: Seq<char>) -> Seq<char> {
    if plain_key(k) && config_strings(c).contains_key(k) {
        config_strings(c)[k]
    } else {
        Seq::empty()
    }
}

/// The integer that the setting `k` reads as; zero where there is none, and
/// where the key is not plain.
pub open spec fn int_setting(c: config::Config, k: Seq<char>) -> i64 {
    if plain_key(k) && config_ints(c).contains_key(k) {
        config_ints(c)[k]
    } else {
        0
    }
}

/// The setting `k` as a number of seconds: a negative one counts as zero.
pub open spec fn seconds_setting(c: config::Config, k: Seq<char>) -> u64 {
    if int_setting(c, k) < 0 {
        0
    } else {
        int_setting(c, k) as u64
    }
}

/// The setting `k` as a count that fits 32 bits: one below zero counts as
/// zero, one above the largest such count as that count.
pub open spec fn count_setting(c: config::Config, k: Seq<char>) -> u32 {
    if int_setting(c, k) < 0 {
        0
    } else if int_setting(c, k) > u32::MAX {
        u32::MAX
    } else {
        int_setting(c, k) as u32
    }
}

/// The string setting `k`; the empty string where it is missing, and where
/// the key is not plain.
pub fn config_get_string(c: &config::Config, k: &str) -> (r: String)
    ensures
        r@ == string_setting(*c, k@),
{
    if !is_plain_key(k) {
        return String::new();
    }
    match lookup_str(c, k) {
        Some(s) => s,
        None => String::new(),
    }
}

/// The integer setting `k`; zero where it is missing, and where the key is
/// not plain.
pub fn config_get_i64(c: &config::Config, k: &str) -> (r: i64)
    ensures
        r == int_setting(*c, k@),
{
    if !is_plain_key(k) {
        return 0;
    }
    match lookup_int(c, k) {
        Some(v) => v,
        None => 0,
    }
}

/// The setting `k` as a number of seconds.
pub fn config_get_seconds(c: &config::Config, k: &str) -> (r: u64)
    ensures
        r == seconds_setting(*c, k@),
{
    let v = config_get_i64(c, k);
    if v < 0 {
        0
    } else {
        v as u64
    }
}

/// The setting `k` as a count that fits 32 bits.
pub fn config_get_count(c: &config::Config, k: &str) -> (r: u32)
    ensures
        r == count_setting(*c, k@),
{
    let v = config_get_i64(c, k);
    if v < 0 {
        0
    } else if v > 0xffff_ffff {
        0xffff_ffff
    } else {
        v as u32
    }
}

} // verus!
