//! The register model: named, addressed, scaled telemetry points plus the
//! locators for the device's textual identifiers, and the hex-address parser
//! used when the model is loaded.

use vstd::prelude::*;

verus! {

broadcast use vstd::string::next_postcondition, vstd::string::axiom_spec_iter;

/// How a locator's registers are to be interpreted.
#[derive(Debug, Clone)]
pub enum LocatorType {
    String,
    Integer,
}

/// Where and how to read a non-telemetry identifier (serial number,
/// firmware version).
#[derive(Debug, Clone)]
pub struct Locator {
    pub format: LocatorType,
    pub address: u16,
    pub length: usize,
}

/// One named, addressed, scaled telemetry register.
#[derive(Debug, Clone)]
pub struct Point {
    pub address: u16,
    pub name: String,
    pub scale_factor: i16,
    pub length: usize,
    pub uom: String,
    pub device_class: String,
    pub state_class: String,
    pub precision: usize,
}

impl Point {
    pub fn name(&self) -> (r: String)
        ensures
            r@ == self.name@,
    {
        self.name.clone()
    }
}

/// The full declarative register model of one device.
#[derive(Debug, Clone)]
pub struct Config {
    pub manufacturer: String,
    pub model: String,
    pub serial_number: Locator,
    pub firmware_version: Locator,
    pub points: Vec<Point>,
}

/// The register model as handed to the polling engine.
#[derive(Debug, Clone)]
pub struct GrowattModel(pub Config);

impl GrowattModel {
    pub fn get_points(&self) -> (r: &Vec<Point>)
        ensures
            r == &self.0.points,
    {
        &self.0.points
    }

    pub fn get_manufacturer(&self) -> (r: &String)
        ensures
            r@ == self.0.manufacturer@,
    {
        &self.0.manufacturer
    }

    pub fn get_model(&self) -> (r: &String)
        ensures
            r@ == self.0.model@,
    {
        &self.0.model
    }

    /// Look a locator up by kind.  Only the two kinds below exist; any other
    /// request would be a caller bug, so it is ruled out up front.
    pub fn get_locator(&self, l_type: &str) -> (r: &Locator)
        requires
            l_type@ == "serial_number"@ || l_type@ == "firmware_version"@,
        ensures
            l_type@ == "serial_number"@ ==> r == &self.0.serial_number,
            l_type@ != "serial_number"@ ==> r == &self.0.firmware_version,
    {
        if str_eq(l_type, "serial_number") {
            &self.0.serial_number
        } else {
            &self.0.firmware_version
        }
    }
}

/// The characters of a string slice, as a vector.
pub fn chars_of(s: &str) -> (v: Vec<char>)
    ensures
        v@ == s@,
{
    let mut v: Vec<char> = Vec::new();
    for c in it: s.chars()
        invariant
            it.seq() == s@,
            v@ == it.seq().subrange(0, it.index() as int),
    {
        v.push(c);
    }
    proof {
        assert(v@ =~= s@);
    }
    v
}

/// True of hexadecimal digit characters.
pub open spec fn is_hex_digit(c: char) -> bool {
    (0x30 <= c as u32 && c as u32 <= 0x39) || (0x61 <= c as u32 && c as u32 <= 0x66) || (0x41
        <= c as u32 && c as u32 <= 0x46)
}

/// The numeric value of a hexadecimal digit character.
pub open spec fn hex_digit_value(c: char) -> int {
    if 0x30 <= c as u32 && c as u32 <= 0x39 {
        c as u32 - 0x30
    } else if 0x61 <= c as u32 && c as u32 <= 0x66 {
        c as u32 - 0x61 + 10
    } else {
        c as u32 - 0x41 + 10
    }
}

/// Every leading "0x" prefix removed, as the model loader removes them.
pub open spec fn strip_hex_prefixes(s: Seq<char>) -> Seq<char>
    decreases s.len(),
{
    if s.len() >= 2 && s[0] == '0' && s[1] == 'x' {
        strip_hex_prefixes(s.skip(2))
    } else {
        s
    }
}

/// One optional leading plus sign removed.
pub open spec fn strip_sign(s: Seq<char>) -> Seq<char> {
    if s.len() >= 1 && s[0] == '+' {
        s.drop_first()
    } else {
        s
    }
}

/// The integer value of a hexadecimal digit sequence.
pub open spec fn hex_value(s: Seq<char>) -> int
    decreases s.len(),
{
    if s.len() == 0 {
        0
    } else {
        16 * hex_value(s.drop_last()) + hex_digit_value(s.last())
    }
}

pub open spec fn all_hex_digits(s: Seq<char>) -> bool {
    forall|i: int| 0 <= i < s.len() ==> is_hex_digit(#[trigger] s[i])
}

/// What parsing a register-address literal yields: leading "0x" prefixes are
/// stripped, an optional plus sign is allowed, the remaining characters must
/// be one or more hexadecimal digits whose value fits 32 bits, and the value
/// is then truncated to the low 16 bits.
pub open spec fn parse_hex_spec(s: Seq<char>) -> Option<u16> {
    let t = strip_sign(strip_hex_prefixes(s));
    if t.len() > 0 && all_hex_digits(t) && hex_value(t) <= u32::MAX {
        Some((hex_value(t) % 0x10000) as u16)
    } else {
        None
    }
}

proof fn lemma_hex_value_nonneg(s: Seq<char>)
    requires
        all_hex_digits(s),
    ensures
        hex_value(s) >= 0,
    decreases s.len(),
{
    if s.len() > 0 {
        assert(all_hex_digits(s.drop_last())) by {
            assert(forall|i: int|
                0 <= i < s.drop_last().len() ==> #[trigger] s.drop_last()[i] == s[i]);
        }
        lemma_hex_value_nonneg(s.drop_last());
        assert(is_hex_digit(s.last()));
    }
}

proof fn lemma_hex_value_prefix_le(s: Seq<char>, j: int)
    requires
        all_hex_digits(s),
        0 <= j <= s.len(),
    ensures
        hex_value(s.subrange(0, j)) <= hex_value(s),
    decreases s.len() - j,
{
    if j == s.len() {
        assert(s.subrange(0, j) =~= s);
    } else {
        lemma_hex_value_prefix_le(s, j + 1);
        let p = s.subrange(0, j + 1);
        assert(p.drop_last() =~= s.subrange(0, j));
        assert(all_hex_digits(s.subrange(0, j))) by {
            assert(forall|i: int|
                0 <= i < j ==> #[trigger] s.subrange(0, j)[i] == s[i]);
        }
        lemma_hex_value_nonneg(s.subrange(0, j));
        assert(is_hex_digit(p.last()));
    }
}

/// Parse a register-address literal of the "0x1a" style into an unsigned
/// 16-bit register offset.  Returns nothing on malformed input, which the
/// model loader treats as fatal.
pub fn parse_hex_address(s: &str) -> (r: Option<u16>)
    ensures
        r == parse_hex_spec(s@),
{
    let v = chars_of(s);
    let n: usize = v.len();
    let mut st: usize = 0;
    proof {
        assert(v@.skip(0) =~= v@);
    }
    while n - st >= 2 && v[st] == '0' && v[st + 1] == 'x'
        invariant
            v@ == s@,
            n == v@.len(),
            st <= n,
            strip_hex_prefixes(s@) == strip_hex_prefixes(v@.skip(st as int)),
        decreases n - st,
    {
        proof {
            assert(v@.skip(st as int).skip(2) =~= v@.skip(st as int + 2));
        }
        st += 2;
    }
    proof {
        assert(strip_hex_prefixes(v@.skip(st as int)) == v@.skip(st as int));
    }
    let mut i: usize = st;
    if i < n && v[i] == '+' {
        i += 1;
        proof {
            assert(v@.skip(st as int).drop_first() =~= v@.skip(i as int));
        }
    }
    let ghost t = v@.skip(i as int);
    proof {
        assert(strip_sign(strip_hex_prefixes(s@)) == t);
    }
    if i == n {
        return None;
    }
    let mut acc: u32 = 0;
    let mut j: usize = i;
    while j < n
        invariant
            v@ == s@,
            n == v@.len(),
            i <= j <= n,
            i < n,
            t == v@.skip(i as int),
            strip_sign(strip_hex_prefixes(s@)) == t,
            all_hex_digits(t.subrange(0, j - i)),
            acc == hex_value(t.subrange(0, j - i)),
        decreases n - j,
    {
        let u: u32 = v[j] as u32;
        proof {
            assert(t[j - i] == v@[j as int]);
        }
        let d: u32 = if 0x30 <= u && u <= 0x39 {
            u - 0x30
        } else if 0x61 <= u && u <= 0x66 {
            u - 0x61 + 10
        } else if 0x41 <= u && u <= 0x46 {
            u - 0x41 + 10
        } else {
            proof {
                assert(!is_hex_digit(t[j - i]));
            }
            return None;
        };
        let wide: u64 = acc as u64 * 16 + d as u64;
        proof {
            let p = t.subrange(0, j - i + 1);
            assert(p.drop_last() =~= t.subrange(0, j - i));
            assert(p.last() == t[j - i]);
            assert(hex_value(p) == wide);
            assert(all_hex_digits(p));
        }
        if wide > u32::MAX as u64 {
            proof {
                if all_hex_digits(t) {
                    lemma_hex_value_prefix_le(t, j - i + 1);
                }
            }
            return None;
        }
        acc = wide as u32;
        j += 1;
    }
    proof {
        assert(t.subrange(0, (n - i) as int) =~= t);
    }
    Some((acc % 0x10000) as u16)
}

/// Character-wise string equality.
pub fn str_eq(a: &str, b: &str) -> (r: bool)
    ensures
        r == (a@ == b@),
{
    let va = chars_of(a);
    let vb = chars_of(b);
    if va.len() != vb.len() {
        return false;
    }
    let mut i: usize = 0;
    while i < va.len()
        invariant
            va@ == a@,
            vb@ == b@,
            va@.len() == vb@.len(),
            i <= va@.len(),
            forall|j: int| 0 <= j < i ==> va@[j] == vb@[j],
        decreases va@.len() - i,
    {
        if va[i] != vb[i] {
            return false;
        }
        i += 1;
    }
    proof {
        assert(a@ =~= b@);
    }
    true
}

} // verus!
