use vstd::prelude::*;
use vstd::string::StringExecFns;

use rand::distributions::{Distribution, Uniform};
use rand::rngs::ThreadRng;

verus! {

#[verifier::external_type_specification]
#[verifier::external_body]
pub struct ExThreadRng(ThreadRng);

/// Relies on `rand::thread_rng`: a handle to this thread's generator.
pub assume_specification[ rand::thread_rng ]() -> ThreadRng;

/// Relies on rand's `Uniform::new_inclusive(0, 15)` and its `sample`: a
/// value in the closed range from 0 to 15.
#[verifier::external_body]
fn sample_hex_digit(rng: &mut ThreadRng) -> (r: u32)
    ensures
        r <= 15,
{
    Uniform::new_inclusive(0u32, 15u32).sample(rng)
}

/// The uppercase hexadecimal digit for a value below sixteen.
pub open spec fn upper_hex_digit(d: nat) -> char {
    if d < 10 {
        ((d + '0' as nat) as u8) as char
    } else {
        ((d - 10 + 'A' as nat) as u8) as char
    }
}

pub open spec fn is_upper_hex(c: char) -> bool {
    ('0' <= c && c <= '9') || ('A' <= c && c <= 'F')
}

/// Six octets of uppercase hexadecimal digit pairs joined by `:`, whose
/// second digit is `2`.
pub open spec fn is_mac_text(s: Seq<char>) -> bool {
    &&& s.len() == 17
    &&& s[1] == '2'
    &&& forall|i: int|
        0 <= i < 17 ==> if i % 3 == 2 {
            s[i] == ':'
        } else {
            is_upper_hex(#[trigger] s[i])
        }
}

/// The `i`-th character of the MAC address spelled by eleven digits: the
/// first digit, a literal `2`, then five octets of two digits each.
pub open spec fn mac_char(digits: Seq<u32>, i: int) -> char {
    if i == 0 {
        upper_hex_digit(digits[0] as nat)
    } else if i == 1 {
        '2'
    } else if i % 3 == 2 {
        ':'
    } else {
        upper_hex_digit(digits[2 * (i / 3) - 1 + i % 3] as nat)
    }
}

pub open spec fn mac_text(digits: Seq<u32>) -> Seq<char> {
    Seq::new(17, |i: int| mac_char(digits, i))
}

fn hex_digit_text(d: u32) -> (r: &'static str)
    requires
        d < 16,
    ensures
        r@ == seq![upper_hex_digit(d as nat)],
{
    proof {
        reveal_strlit("0");
        reveal_strlit("1");
        reveal_strlit("2");
        reveal_strlit("3");
        reveal_strlit("4");
        reveal_strlit("5");
        reveal_strlit("6");
        reveal_strlit("7");
        reveal_strlit("8");
        reveal_strlit("9");
        reveal_strlit("A");
        reveal_strlit("B");
        reveal_strlit("C");
        reveal_strlit("D");
        reveal_strlit("E");
        reveal_strlit("F");
    }
    match d {
        0 => "0",
        1 => "1",
        2 => "2",
        3 => "3",
        4 => "4",
        5 => "5",
        6 => "6",
        7 => "7",
        8 => "8",
        9 => "9",
        10 => "A",
        11 => "B",
        12 => "C",
        13 => "D",
        14 => "E",
        _ => "F",
    }
}

/// The MAC address spelled by eleven digits below sixteen.
pub fn mac_address_from(digits: &Vec<u32>) -> (r: String)
    requires
        digits@.len() == 11,
        forall|i: int| 0 <= i < 11 ==> #[trigger] digits@[i] < 16,
    ensures
        r@ == mac_text(digits@),
        is_mac_text(r@),
{
    let mut mac = String::from_str(hex_digit_text(digits[0]));
    let two = "2";
    let colon = ":";
    proof {
        reveal_strlit("2");
        reveal_strlit(":");
    }
    mac.append(two);
    assert(mac@ =~= Seq::new(2, |i: int| mac_char(digits@, i)));
    let mut k: usize = 1;
    while k <= 5
        invariant
            1 <= k <= 6,
            digits@.len() == 11,
            forall|i: int| 0 <= i < 11 ==> #[trigger] digits@[i] < 16,
            colon@ == seq![':'],
            mac@ =~= Seq::new((3 * k - 1) as nat, |i: int| mac_char(digits@, i)),
        decreases 6 - k,
    {
        mac.append(colon);
        mac.append(hex_digit_text(digits[2 * k - 1]));
        mac.append(hex_digit_text(digits[2 * k]));
        proof {
            let n = (3 * k - 1) as int;
            assert(n % 3 == 2 && (n + 1) / 3 == k && (n + 1) % 3 == 0 && (n + 2) / 3 == k && (n
                + 2) % 3 == 1);
        }
        k = k + 1;
        assert(mac@ =~= Seq::new((3 * k - 1) as nat, |i: int| mac_char(digits@, i)));
    }
    proof {
        assert forall|i: int| 0 <= i < 17 implies if i % 3 == 2 {
            mac@[i] == ':'
        } else {
            is_upper_hex(#[trigger] mac@[i])
        } by {
            if i >= 2 && i % 3 != 2 {
                assert(0 <= 2 * (i / 3) - 1 + i % 3 < 11);
            }
        }
    }
    mac
}

/// The link layer: random MAC addresses for the VMs.
pub struct LayerTwo {
    rng: ThreadRng,
}

impl LayerTwo {
    pub fn init() -> (r: LayerTwo) {
        LayerTwo { rng: rand::thread_rng() }
    }

    /// Two random uppercase hexadecimal digits.
    pub fn generate_digit(&mut self) -> (r: (String, String))
        ensures
            r.0@.len() == 1 && is_upper_hex(r.0@[0]),
            r.1@.len() == 1 && is_upper_hex(r.1@[0]),
    {
        let one = sample_hex_digit(&mut self.rng);
        let two = sample_hex_digit(&mut self.rng);
        (String::from_str(hex_digit_text(one)), String::from_str(hex_digit_text(two)))
    }

    /// A random MAC address whose first octet ends in `2`.
    pub fn generate_mac_address(&mut self) -> (r: String)
        ensures
            is_mac_text(r@),
    {
        let mut digits: Vec<u32> = Vec::with_capacity(11);
        let mut i: usize = 0;
        while i < 11
            invariant
                i <= 11,
                digits@.len() == i,
                forall|j: int| 0 <= j < i ==> #[trigger] digits@[j] < 16,
            decreases 11 - i,
        {
            digits.push(sample_hex_digit(&mut self.rng));
            i = i + 1;
        }
        mac_address_from(&digits)
    }
}

} // verus!
