//! The artifact naming conventions: the platform-appropriate path of a
//! module's build artifact, and the versioned-copy path derived from a
//! modification timestamp. The suffix format is
//! `year-month-day_hour-minute-second`, zero padded, at second
//! resolution; distinct timestamps are proved to yield distinct
//! versioned paths.

use vstd::prelude::*;
use vstd::string::StringExecFns;
use vstd::arithmetic::div_mod::{
    lemma_fundamental_div_mod, lemma_mod_bound, lemma_multiply_divide_lt, lemma_div_pos_is_pos,
};
use crate::calendar::{
    civil_day, civil_hour, civil_minute, civil_month, civil_of_timestamp, civil_second, civil_year,
    lemma_civil_decomposition, lemma_civil_injective, YEAR_BOUND_SECONDS,
};

verus! {

/// The host operating-system family, which decides the dynamic-library
/// file extension.
#[derive(Clone, Copy, Debug, PartialEq, Eq, Structural)]
pub enum Platform {
    Windows,
    MacOs,
    Unix,
}

/// The build profile, which decides the build-output directory.
#[derive(Clone, Copy, Debug, PartialEq, Eq, Structural)]
pub enum BuildProfile {
    Debug,
    Release,
}

pub open spec fn platform_extension(platform: Platform) -> Seq<char> {
    match platform {
        Platform::Windows => "dll"@,
        Platform::MacOs => "dylib"@,
        Platform::Unix => "so"@,
    }
}

pub open spec fn profile_dir(profile: BuildProfile) -> Seq<char> {
    match profile {
        BuildProfile::Debug => "debug"@,
        BuildProfile::Release => "release"@,
    }
}

/// The canonical build-artifact path of a library called `name`:
/// `target/<profile>/<name>.<extension>`.
pub open spec fn spec_lib_path(name: Seq<char>, profile: BuildProfile, platform: Platform) -> Seq<
    char,
> {
    "target/"@ + profile_dir(profile) + "/"@ + name + "."@ + platform_extension(platform)
}

pub open spec fn digit_char(d: int) -> char {
    if d == 0 {
        '0'
    } else if d == 1 {
        '1'
    } else if d == 2 {
        '2'
    } else if d == 3 {
        '3'
    } else if d == 4 {
        '4'
    } else if d == 5 {
        '5'
    } else if d == 6 {
        '6'
    } else if d == 7 {
        '7'
    } else if d == 8 {
        '8'
    } else {
        '9'
    }
}

/// `n` as two decimal digits, zero padded.
pub open spec fn pad2(n: int) -> Seq<char> {
    seq![digit_char(n / 10), digit_char(n % 10)]
}

/// `n` as four decimal digits, zero padded.
pub open spec fn pad4(n: int) -> Seq<char> {
    pad2(n / 100) + pad2(n % 100)
}

/// The version suffix of a modification timestamp:
/// `year-month-day_hour-minute-second`.
pub open spec fn spec_suffix(secs: int) -> Seq<char> {
    pad4(civil_year(secs)) + seq!['-'] + pad2(civil_month(secs)) + seq!['-'] + pad2(
        civil_day(secs),
    ) + seq!['_'] + pad2(civil_hour(secs)) + seq!['-'] + pad2(civil_minute(secs)) + seq!['-']
        + pad2(civil_second(secs))
}

/// The versioned copy of `name` for a load at modification time `secs`:
/// the artifact name with the version suffix spliced in.
pub open spec fn spec_versioned_name(name: Seq<char>, secs: int) -> Seq<char> {
    name + seq!['_'] + spec_suffix(secs)
}

/// The full path of the versioned copy:
/// `target/<profile>/<name>_<suffix>.<extension>`.
pub open spec fn spec_versioned_path(
    name: Seq<char>,
    secs: int,
    profile: BuildProfile,
    platform: Platform,
) -> Seq<char> {
    spec_lib_path(spec_versioned_name(name, secs), profile, platform)
}

proof fn lemma_digit_char_injective(a: int, b: int)
    requires
        0 <= a < 10,
        0 <= b < 10,
        digit_char(a) == digit_char(b),
    ensures
        a == b,
{
}

proof fn lemma_cat_left<A>(x: Seq<A>, y: Seq<A>, i: int)
    requires
        0 <= i < x.len(),
    ensures
        (x + y)[i] == x[i],
{
}

proof fn lemma_cat_right<A>(x: Seq<A>, y: Seq<A>, i: int)
    requires
        x.len() <= i < x.len() + y.len(),
    ensures
        (x + y)[i] == y[i - x.len()],
{
}

/// Two numbers below one hundred with the same two decimal digits are
/// the same number.
proof fn lemma_two_digits(a: int, b: int)
    requires
        0 <= a < 100,
        0 <= b < 100,
        digit_char(a / 10) == digit_char(b / 10),
        digit_char(a % 10) == digit_char(b % 10),
    ensures
        a == b,
{
    lemma_fundamental_div_mod(a, 10);
    lemma_fundamental_div_mod(b, 10);
    lemma_mod_bound(a, 10);
    lemma_mod_bound(b, 10);
    lemma_div_pos_is_pos(a, 10);
    lemma_div_pos_is_pos(b, 10);
    lemma_multiply_divide_lt(a, 10, 10);
    lemma_multiply_divide_lt(b, 10, 10);
    lemma_digit_char_injective(a / 10, b / 10);
    lemma_digit_char_injective(a % 10, b % 10);
}

proof fn lemma_pad2_injective(a: int, b: int)
    requires
        0 <= a < 100,
        0 <= b < 100,
        pad2(a) == pad2(b),
    ensures
        a == b,
{
    assert(pad2(a)[0] == pad2(b)[0]);
    assert(pad2(a)[1] == pad2(b)[1]);
    lemma_two_digits(a, b);
}

proof fn lemma_pad4_injective(a: int, b: int)
    requires
        0 <= a < 10000,
        0 <= b < 10000,
        pad4(a) == pad4(b),
    ensures
        a == b,
{
    lemma_fundamental_div_mod(a, 100);
    lemma_fundamental_div_mod(b, 100);
    lemma_mod_bound(a, 100);
    lemma_mod_bound(b, 100);
    lemma_div_pos_is_pos(a, 100);
    lemma_div_pos_is_pos(b, 100);
    lemma_multiply_divide_lt(a, 100, 100);
    lemma_multiply_divide_lt(b, 100, 100);
    assert(pad2(a / 100) =~= pad2(b / 100)) by {
        lemma_cat_left(pad2(a / 100), pad2(a % 100), 0);
        lemma_cat_left(pad2(b / 100), pad2(b % 100), 0);
        lemma_cat_left(pad2(a / 100), pad2(a % 100), 1);
        lemma_cat_left(pad2(b / 100), pad2(b % 100), 1);
    }
    assert(pad2(a % 100) =~= pad2(b % 100)) by {
        lemma_cat_right(pad2(a / 100), pad2(a % 100), 2);
        lemma_cat_right(pad2(b / 100), pad2(b % 100), 2);
        lemma_cat_right(pad2(a / 100), pad2(a % 100), 3);
        lemma_cat_right(pad2(b / 100), pad2(b % 100), 3);
    }
    lemma_pad2_injective(a / 100, b / 100);
    lemma_pad2_injective(a % 100, b % 100);
}

/// The pieces of the version suffix sit at fixed offsets: each piece is
/// recoverable from the formatted string.
proof fn lemma_suffix_parts(s: int)
    ensures
        spec_suffix(s).len() == 19,
        pad4(civil_year(s)) == spec_suffix(s).subrange(0, 4),
        pad2(civil_month(s)) == spec_suffix(s).subrange(5, 7),
        pad2(civil_day(s)) == spec_suffix(s).subrange(8, 10),
        pad2(civil_hour(s)) == spec_suffix(s).subrange(11, 13),
        pad2(civil_minute(s)) == spec_suffix(s).subrange(14, 16),
        pad2(civil_second(s)) == spec_suffix(s).subrange(17, 19),
{
    let p0 = pad4(civil_year(s));
    let p1 = p0 + seq!['-'];
    let p2 = p1 + pad2(civil_month(s));
    let p3 = p2 + seq!['-'];
    let p4 = p3 + pad2(civil_day(s));
    let p5 = p4 + seq!['_'];
    let p6 = p5 + pad2(civil_hour(s));
    let p7 = p6 + seq!['-'];
    let p8 = p7 + pad2(civil_minute(s));
    let p9 = p8 + seq!['-'];
    let pa = p9 + pad2(civil_second(s));
    assert(spec_suffix(s) == pa);
    assert(pad4(civil_year(s)) =~= pa.subrange(0, 4));
    assert(pad2(civil_month(s)) =~= pa.subrange(5, 7));
    assert(pad2(civil_day(s)) =~= pa.subrange(8, 10));
    assert(pad2(civil_hour(s)) =~= pa.subrange(11, 13));
    assert(pad2(civil_minute(s)) =~= pa.subrange(14, 16));
    assert(pad2(civil_second(s)) =~= pa.subrange(17, 19));
}

/// Distinct timestamps of the four-digit-year era format to distinct
/// version suffixes: the suffix is injective at second resolution.
pub proof fn lemma_suffix_injective(s1: int, s2: int)
    requires
        0 <= s1 < YEAR_BOUND_SECONDS,
        0 <= s2 < YEAR_BOUND_SECONDS,
        s1 != s2,
    ensures
        spec_suffix(s1) != spec_suffix(s2),
{
    lemma_civil_decomposition(s1);
    lemma_civil_decomposition(s2);
    lemma_suffix_parts(s1);
    lemma_suffix_parts(s2);
    if spec_suffix(s1) == spec_suffix(s2) {
        lemma_pad4_injective(civil_year(s1), civil_year(s2));
        lemma_pad2_injective(civil_month(s1), civil_month(s2));
        lemma_pad2_injective(civil_day(s1), civil_day(s2));
        lemma_pad2_injective(civil_hour(s1), civil_hour(s2));
        lemma_pad2_injective(civil_minute(s1), civil_minute(s2));
        lemma_pad2_injective(civil_second(s1), civil_second(s2));
        lemma_civil_injective(s1, s2);
        assert(false);
    }
}

/// Two loads of the same artifact whose modification timestamps differ
/// produce distinct versioned file paths.
pub proof fn lemma_versioned_paths_distinct(
    name: Seq<char>,
    s1: int,
    s2: int,
    profile: BuildProfile,
    platform: Platform,
)
    requires
        0 <= s1 < YEAR_BOUND_SECONDS,
        0 <= s2 < YEAR_BOUND_SECONDS,
        s1 != s2,
    ensures
        spec_versioned_path(name, s1, profile, platform) != spec_versioned_path(
            name,
            s2,
            profile,
            platform,
        ),
{
    let pre = "target/"@ + profile_dir(profile) + "/"@ + name + seq!['_'];
    let post = "."@ + platform_extension(platform);
    let p1 = spec_versioned_path(name, s1, profile, platform);
    let p2 = spec_versioned_path(name, s2, profile, platform);
    assert(p1 =~= pre + (spec_suffix(s1) + post));
    assert(p2 =~= pre + (spec_suffix(s2) + post));
    if p1 == p2 {
        pre.lemma_concat_injective(spec_suffix(s1) + post, spec_suffix(s2) + post);
        lemma_suffix_parts(s1);
        lemma_suffix_parts(s2);
        assert(spec_suffix(s1) =~= spec_suffix(s2)) by {
            assert forall|i: int| 0 <= i < 19 implies spec_suffix(s1)[i] == spec_suffix(s2)[i] by {
                lemma_cat_left(spec_suffix(s1), post, i);
                lemma_cat_left(spec_suffix(s2), post, i);
            }
        }
        lemma_suffix_injective(s1, s2);
        assert(false);
    }
}

fn digit_str(d: u64) -> (r: &'static str)
    requires
        d < 10,
    ensures
        r@ == seq![digit_char(d as int)],
{
    proof {
        reveal_strlit("0");
        reveal_strlit("1");
        reveal_strlit("2");
        reveal_strlit("3");
        reveal_strlit("4");
        reveal_strlit("5");
        reveal_strlit("6");
        reveal_strlit("7");
        reveal_strlit("8");
        reveal_strlit("9");
    }
    let r = match d {
        0 => "0",
        1 => "1",
        2 => "2",
        3 => "3",
        4 => "4",
        5 => "5",
        6 => "6",
        7 => "7",
        8 => "8",
        _ => "9",
    };
    proof {
        assert(r@ =~= seq![digit_char(d as int)]);
    }
    r
}

fn push_pad2(out: &mut String, n: u64)
    requires
        n < 100,
    ensures
        final(out)@ == old(out)@ + pad2(n as int),
{
    proof {
        lemma_mod_bound(n as int, 10);
        lemma_div_pos_is_pos(n as int, 10);
        lemma_multiply_divide_lt(n as int, 10, 10);
    }
    out.append(digit_str(n / 10));
    out.append(digit_str(n % 10));
    proof {
        assert(out@ =~= old(out)@ + pad2(n as int));
    }
}

fn push_pad4(out: &mut String, n: u64)
    requires
        n < 10000,
    ensures
        final(out)@ == old(out)@ + pad4(n as int),
{
    proof {
        lemma_mod_bound(n as int, 100);
        lemma_div_pos_is_pos(n as int, 100);
        lemma_multiply_divide_lt(n as int, 100, 100);
    }
    push_pad2(out, n / 100);
    push_pad2(out, n % 100);
    proof {
        assert(out@ =~= old(out)@ + pad4(n as int));
    }
}

/// Format the version suffix of a modification timestamp, second
/// resolution, deterministically: `year-month-day_hour-minute-second`.
pub fn version_suffix(secs: u64) -> (r: String)
    requires
        secs < YEAR_BOUND_SECONDS,
    ensures
        r@ == spec_suffix(secs as int),
{
    proof {
        lemma_civil_decomposition(secs as int);
    }
    let parts = civil_of_timestamp(secs);
    let mut out = String::new();
    push_pad4(&mut out, parts.0);
    out.append("-");
    push_pad2(&mut out, parts.1);
    out.append("-");
    push_pad2(&mut out, parts.2);
    out.append("_");
    push_pad2(&mut out, parts.3);
    out.append("-");
    push_pad2(&mut out, parts.4);
    out.append("-");
    push_pad2(&mut out, parts.5);
    proof {
        reveal_strlit("-");
        reveal_strlit("_");
        assert("-"@ =~= seq!['-']);
        assert("_"@ =~= seq!['_']);
        assert(out@ =~= spec_suffix(secs as int));
    }
    out
}

/// Build the platform-appropriate artifact path of a dynamic library:
/// `target/<profile>/<lib_name>.<extension>`.
pub fn make_lib_path(lib_name: &str, profile: BuildProfile, platform: Platform) -> (r: String)
    ensures
        r@ == spec_lib_path(lib_name@, profile, platform),
{
    let mut out = String::new();
    out.append("target/");
    match profile {
        BuildProfile::Debug => out.append("debug"),
        BuildProfile::Release => out.append("release"),
    }
    out.append("/");
    out.append(lib_name);
    out.append(".");
    match platform {
        Platform::Windows => out.append("dll"),
        Platform::MacOs => out.append("dylib"),
        Platform::Unix => out.append("so"),
    }
    proof {
        assert(out@ =~= spec_lib_path(lib_name@, profile, platform));
    }
    out
}

/// Build the path of the versioned copy for a load at modification time
/// `secs`: `target/<profile>/<lib_name>_<suffix>.<extension>`.
pub fn versioned_lib_path(lib_name: &str, secs: u64, profile: BuildProfile, platform: Platform) -> (r:
    String)
    requires
        secs < YEAR_BOUND_SECONDS,
    ensures
        r@ == spec_versioned_path(lib_name@, secs as int, profile, platform),
{
    let suffix = version_suffix(secs);
    let mut name = String::from_str(lib_name);
    name.append("_");
    name.append(suffix.as_str());
    let r = make_lib_path(name.as_str(), profile, platform);
    proof {
        reveal_strlit("_");
        assert("_"@ =~= seq!['_']);
        assert(r@ =~= spec_versioned_path(lib_name@, secs as int, profile, platform));
    }
    r
}

} // verus!
