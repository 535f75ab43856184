use vstd::prelude::*;
use vstd::string::StringExecFns;

use crate::system_error::SystemError;

use rand::seq::SliceRandom;

verus! {

/// An IPv4 address, as its four octets in network order.
#[derive(Debug, Clone, Copy, PartialEq, Eq, Structural)]
pub struct Ipv4Address {
    pub a: u8,
    pub b: u8,
    pub c: u8,
    pub d: u8,
}

/// The decimal digit for a value below ten.
pub open spec fn decimal_digit(d: nat) -> char {
    ((d + '0' as nat) as u8) as char
}

/// `n` in decimal, without leading zeros.
pub open spec fn decimal(n: nat) -> Seq<char>
    decreases n,
{
    if n < 10 {
        seq![decimal_digit(n)]
    } else {
        decimal(n / 10).push(decimal_digit(n % 10))
    }
}

/// The dotted-decimal text of an address.
pub open spec fn dotted(a: Ipv4Address) -> Seq<char> {
    decimal(a.a as nat) + "."@ + decimal(a.b as nat) + "."@ + decimal(a.c as nat) + "."@ + decimal(
        a.d as nat,
    )
}

fn digit_text(d: u8) -> (r: &'static str)
    requires
        d < 10,
    ensures
        r@ == seq![decimal_digit(d as nat)],
{
    proof {
        reveal_strlit("0");
        reveal_strlit("1");
        reveal_strlit("2");
        reveal_strlit("3");
        reveal_strlit("4");
        reveal_strlit("5");
        reveal_strlit("6");
        reveal_strlit("7");
        reveal_strlit("8");
        reveal_strlit("9");
    }
    match d {
        0 => "0",
        1 => "1",
        2 => "2",
        3 => "3",
        4 => "4",
        5 => "5",
        6 => "6",
        7 => "7",
        8 => "8",
        _ => "9",
    }
}

/// Appends the decimal text of `n` to `out`.
fn append_decimal(out: &mut String, n: u8)
    ensures
        final(out)@ == old(out)@ + decimal(n as nat),
{
    if n >= 100 {
        let t = n / 10;
        out.append(digit_text(t / 10));
        out.append(digit_text(t % 10));
        out.append(digit_text(n % 10));
        assert(decimal(t as nat) == decimal((t / 10) as nat).push(decimal_digit((t % 10) as nat)));
        assert(decimal(n as nat) == decimal(t as nat).push(decimal_digit((n % 10) as nat)));
    } else if n >= 10 {
        out.append(digit_text(n / 10));
        out.append(digit_text(n % 10));
        assert(decimal(n as nat) == decimal((n / 10) as nat).push(decimal_digit((n % 10) as nat)));
    } else {
        out.append(digit_text(n));
    }
}

impl Ipv4Address {
    pub fn new(a: u8, b: u8, c: u8, d: u8) -> (r: Ipv4Address)
        ensures
            r == (Ipv4Address { a, b, c, d }),
    {
        Ipv4Address { a, b, c, d }
    }

    pub fn octets(&self) -> (r: [u8; 4])
        ensures
            r@ == seq![self.a, self.b, self.c, self.d],
    {
        [self.a, self.b, self.c, self.d]
    }

    /// The dotted-decimal text, such as `255.255.0.0`.
    pub fn to_string(&self) -> (r: String)
        ensures
            r@ == dotted(*self),
    {
        let mut r = String::new();
        append_decimal(&mut r, self.a);
        r.append(".");
        append_decimal(&mut r, self.b);
        r.append(".");
        append_decimal(&mut r, self.c);
        r.append(".");
        append_decimal(&mut r, self.d);
        assert(r@ =~= dotted(*self));
        r
    }

    /// In one of the private ranges 10/8, 172.16/12 or 192.168/16.
    pub fn is_private(&self) -> (r: bool)
        ensures
            r == (self.a == 10 || (self.a == 172 && 16 <= self.b <= 31) || (self.a == 192 && self.b
                == 168)),
    {
        self.a == 10 || (self.a == 172 && 16 <= self.b && self.b <= 31) || (self.a == 192 && self.b
            == 168)
    }

    /// The limited broadcast address 255.255.255.255.
    pub fn is_broadcast(&self) -> (r: bool)
        ensures
            r == (self.a == 255 && self.b == 255 && self.c == 255 && self.d == 255),
    {
        self.a == 255 && self.b == 255 && self.c == 255 && self.d == 255
    }

    /// In one of the documentation ranges 192.0.2/24, 198.51.100/24 or 203.0.113/24.
    pub fn is_documentation(&self) -> (r: bool)
        ensures
            r == ((self.a == 192 && self.b == 0 && self.c == 2) || (self.a == 198 && self.b == 51
                && self.c == 100) || (self.a == 203 && self.b == 0 && self.c == 113)),
    {
        (self.a == 192 && self.b == 0 && self.c == 2) || (self.a == 198 && self.b == 51 && self.c
            == 100) || (self.a == 203 && self.b == 0 && self.c == 113)
    }

    /// In the link-local range 169.254/16.
    pub fn is_link_local(&self) -> (r: bool)
        ensures
            r == (self.a == 169 && self.b == 254),
    {
        self.a == 169 && self.b == 254
    }

    /// In the multicast range 224/4.
    pub fn is_multicast(&self) -> (r: bool)
        ensures
            r == (224 <= self.a && self.a <= 239),
    {
        224 <= self.a && self.a <= 239
    }
}

/// The address class that a pool is drawn from.
#[derive(Debug, Clone, Copy, PartialEq, Eq, Structural)]
pub enum Class {
    A,
    B,
    C,
}

pub open spec fn mask_of(class: Class) -> Ipv4Address {
    match class {
        Class::A => Ipv4Address { a: 255, b: 0, c: 0, d: 0 },
        Class::B => Ipv4Address { a: 255, b: 255, c: 0, d: 0 },
        Class::C => Ipv4Address { a: 255, b: 255, c: 255, d: 0 },
    }
}

/// The `i`-th address of a class's pool: the class's network with `i` as
/// the last octet.
pub open spec fn pool_address(class: Class, i: int) -> Ipv4Address {
    match class {
        Class::A => Ipv4Address { a: 10, b: 10, c: 10, d: i as u8 },
        Class::B => Ipv4Address { a: 172, b: 31, c: 10, d: i as u8 },
        Class::C => Ipv4Address { a: 192, b: 168, c: 10, d: i as u8 },
    }
}

/// A class's pool: 256 addresses, in the order of their last octet.
pub open spec fn pool_of(class: Class) -> Seq<Ipv4Address> {
    Seq::new(256, |i: int| pool_address(class, i))
}

impl Class {
    pub fn subnet_mask(&self) -> (r: Ipv4Address)
        ensures
            r == mask_of(*self),
    {
        match self {
            Class::A => Ipv4Address::new(255, 0, 0, 0),
            Class::B => Ipv4Address::new(255, 255, 0, 0),
            Class::C => Ipv4Address::new(255, 255, 255, 0),
        }
    }

    pub fn generate(&self) -> (r: Vec<Ipv4Address>)
        ensures
            r@ == pool_of(*self),
    {
        let mut range: Vec<Ipv4Address> = Vec::with_capacity(256);
        let mut i: u16 = 0;
        while i <= 255
            invariant
                i <= 256,
                range@ == Seq::new(i as nat, |j: int| pool_address(*self, j)),
            decreases 256 - i,
        {
            let d = i as u8;
            let address = match self {
                Class::A => Ipv4Address::new(10, 10, 10, d),
                Class::B => Ipv4Address::new(172, 31, 10, d),
                Class::C => Ipv4Address::new(192, 168, 10, d),
            };
            range.push(address);
            i = i + 1;
            assert(range@ =~= Seq::new(i as nat, |j: int| pool_address(*self, j)));
        }
        range
    }
}

/// Relies on rand's `SliceRandom::choose` with the thread-local generator:
/// one element of the slice, or `None` where the slice is empty.
#[verifier::external_body]
fn choose_from(pool: &Vec<Ipv4Address>) -> (r: Option<Ipv4Address>)
    ensures
        r.is_some() == (pool@.len() > 0),
        r.is_some() ==> pool@.contains(r->Some_0),
{
    pool.choose(&mut rand::thread_rng()).copied()
}

/// `s` without the first occurrence of `a`, where there is one.
pub open spec fn without(s: Seq<Ipv4Address>, a: Ipv4Address) -> Seq<Ipv4Address> {
    match s.index_of_first(a) {
        Some(i) => s.remove(i),
        None => s,
    }
}

/// The number of draws that one allocation makes before it gives up.
pub const ALLOCATION_ATTEMPTS: u32 = 16;

pub open spec fn exhausted_message() -> Seq<char> {
    "The address pool is exhausted"@
}

/// The first of `draws` that is not in `assigned`.
pub open spec fn first_free(draws: Seq<Ipv4Address>, assigned: Seq<Ipv4Address>) -> Option<
    Ipv4Address,
>
    decreases draws.len(),
{
    if draws.len() == 0 {
        None
    } else if !assigned.contains(draws[0]) {
        Some(draws[0])
    } else {
        first_free(draws.drop_first(), assigned)
    }
}

/// The first free draw is one of the draws and is not in `assigned`.
proof fn lemma_first_free(draws: Seq<Ipv4Address>, assigned: Seq<Ipv4Address>)
    ensures
        first_free(draws, assigned) matches Some(a) ==> draws.contains(a) && !assigned.contains(a),
        draws.len() > 0 && !assigned.contains(draws[0]) ==> first_free(draws, assigned) == Some(
            draws[0],
        ),
    decreases draws.len(),
{
    if draws.len() > 0 {
        lemma_first_free(draws.drop_first(), assigned);
        if let Some(a) = first_free(draws.drop_first(), assigned) {
            let j = choose|j: int| 0 <= j < draws.drop_first().len() && draws.drop_first()[j] == a;
            assert(draws[j + 1] == a);
        }
    }
}

/// A pool of addresses of one class, and the part of it handed out.
pub struct Layer3 {
    dhcp_enabled: bool,
    class: Class,
    subnet_mask: Ipv4Address,
    pool: Vec<Ipv4Address>,
    assigned: Vec<Ipv4Address>,
}

impl Layer3 {
    pub closed spec fn pool_view(&self) -> Seq<Ipv4Address> {
        self.pool@
    }

    pub closed spec fn assigned_view(&self) -> Seq<Ipv4Address> {
        self.assigned@
    }

    pub closed spec fn class_view(&self) -> Class {
        self.class
    }

    /// The pool is its class's range, and the handed-out addresses are
    /// distinct addresses of the pool.
    pub open spec fn wf(&self) -> bool {
        &&& self.pool_view() == pool_of(self.class_view())
        &&& self.assigned_view().no_duplicates()
        &&& forall|i: int|
            0 <= i < self.assigned_view().len() ==> self.pool_view().contains(
                #[trigger] self.assigned_view()[i],
            )
    }

    /// Every address of the pool is handed out.
    pub open spec fn is_exhausted(&self) -> bool {
        forall|a: Ipv4Address| #[trigger]
            self.pool_view().contains(a) ==> self.assigned_view().contains(a)
    }

    /// A class B pool with nothing handed out.
    pub fn init() -> (r: Layer3)
        ensures
            r.wf(),
            r.class_view() == Class::B,
            r.assigned_view() == Seq::<Ipv4Address>::empty(),
            !r.dhcp_enabled(),
            r.subnet_mask() == mask_of(Class::B),
    {
        let class = Class::B;
        let subnet_mask = class.subnet_mask();
        let pool = class.generate();
        let assigned: Vec<Ipv4Address> = Vec::with_capacity(256);
        Layer3 { dhcp_enabled: false, class, subnet_mask, pool, assigned }
    }

    pub closed spec fn spec_dhcp_enabled(&self) -> bool {
        self.dhcp_enabled
    }

    pub closed spec fn spec_subnet_mask(&self) -> Ipv4Address {
        self.subnet_mask
    }

    #[verifier::when_used_as_spec(spec_dhcp_enabled)]
    pub fn dhcp_enabled(&self) -> (r: bool)
        ensures
            r == self.spec_dhcp_enabled(),
    {
        self.dhcp_enabled
    }

    #[verifier::when_used_as_spec(spec_subnet_mask)]
    pub fn subnet_mask(&self) -> (r: Ipv4Address)
        ensures
            r == self.spec_subnet_mask(),
    {
        self.subnet_mask
    }

    pub fn class(&self) -> (r: Class)
        ensures
            r == self.class_view(),
    {
        self.class
    }

    pub fn pool(&self) -> (r: &Vec<Ipv4Address>)
        ensures
            r@ == self.pool_view(),
    {
        &self.pool
    }

    pub fn assigned(&self) -> (r: &Vec<Ipv4Address>)
        ensures
            r@ == self.assigned_view(),
    {
        &self.assigned
    }

    fn is_assigned(&self, address: &Ipv4Address) -> (r: Option<usize>)
        ensures
            match r {
                Some(i) => i < self.assigned_view().len() && self.assigned_view()[i as int]
                    == *address,
                None => !self.assigned_view().contains(*address),
            },
    {
        let mut i: usize = 0;
        while i < self.assigned.len()
            invariant
                i <= self.assigned@.len(),
                forall|j: int| 0 <= j < i ==> self.assigned@[j] != *address,
            decreases self.assigned@.len() - i,
        {
            if self.assigned[i] == *address {
                return Some(i);
            }
            i = i + 1;
        }
        None
    }

    /// One address of the pool, drawn at random.
    pub fn choose_random_address(&self) -> (r: Ipv4Address)
        requires
            self.wf(),
        ensures
            self.pool_view().contains(r),
    {
        match choose_from(&self.pool) {
            Some(a) => a,
            None => {
                assert(self.pool_view()[0] == pool_address(self.class_view(), 0));
                self.pool[0]
            },
        }
    }

    /// Hands out the first of `draws` that is not handed out yet; where
    /// every draw is handed out already, the pool counts as exhausted and
    /// nothing changes.
    pub fn allocate_from_draws(&mut self, draws: &Vec<Ipv4Address>) -> (r: Result<
        Ipv4Address,
        SystemError,
    >)
        requires
            old(self).wf(),
            forall|i: int| 0 <= i < draws@.len() ==> old(self).pool_view().contains(#[trigger] draws@[i]),
        ensures
            final(self).wf(),
            final(self).pool_view() == old(self).pool_view(),
            final(self).class_view() == old(self).class_view(),
            final(self).dhcp_enabled() == old(self).dhcp_enabled(),
            final(self).subnet_mask() == old(self).subnet_mask(),
            match first_free(draws@, old(self).assigned_view()) {
                Some(a) => {
                    &&& r matches Ok(x) && x == a
                    &&& final(self).assigned_view() == old(self).assigned_view().push(a)
                },
                None => {
                    &&& r matches Err(e) && e.details@ == exhausted_message()
                    &&& final(self).assigned_view() == old(self).assigned_view()
                },
            },
    {
        let mut i: usize = 0;
        assert(draws@.subrange(0, draws@.len() as int) =~= draws@);
        while i < draws.len()
            invariant
                *self == *old(self),
                self.wf(),
                forall|j: int| 0 <= j < draws@.len() ==> self.pool_view().contains(#[trigger] draws@[j]),
                i <= draws@.len(),
                first_free(draws@, self.assigned_view()) == first_free(
                    draws@.subrange(i as int, draws@.len() as int),
                    self.assigned_view(),
                ),
            decreases draws@.len() - i,
        {
            let ghost rest = draws@.subrange(i as int, draws@.len() as int);
            assert(rest[0] == draws@[i as int]);
            assert(rest.drop_first() =~= draws@.subrange(i + 1, draws@.len() as int));
            let drawn = draws[i];
            match self.is_assigned(&drawn) {
                Some(_) => {
                    i = i + 1;
                },
                None => {
                    assert(self.pool_view().contains(draws@[i as int]));
                    self.assigned.push(drawn);
                    proof {
                        assert forall|j: int| 0 <= j < self.assigned_view().len() implies self.pool_view().contains(#[trigger] self.assigned_view()[j]) by {
                            if j < old(self).assigned_view().len() {
                                assert(self.assigned_view()[j] == old(self).assigned_view()[j]);
                            }
                        }
                    }
                    return Ok(drawn);
                },
            }
        }
        assert(draws@.subrange(i as int, draws@.len() as int).len() == 0);
        Err(SystemError::new("The address pool is exhausted"))
    }

    /// Hands out an address of the pool that is not handed out yet. Draws
    /// sixteen addresses at random and hands out the first free one; where
    /// every draw hits a handed-out address the pool counts as exhausted
    /// and nothing changes.
    pub fn allocate_address(&mut self) -> (r: Result<Ipv4Address, SystemError>)
        requires
            old(self).wf(),
        ensures
            final(self).wf(),
            final(self).pool_view() == old(self).pool_view(),
            final(self).class_view() == old(self).class_view(),
            final(self).dhcp_enabled() == old(self).dhcp_enabled(),
            final(self).subnet_mask() == old(self).subnet_mask(),
            match r {
                Ok(a) => {
                    &&& old(self).pool_view().contains(a)
                    &&& !old(self).assigned_view().contains(a)
                    &&& final(self).assigned_view() == old(self).assigned_view().push(a)
                },
                Err(e) => {
                    &&& final(self).assigned_view() == old(self).assigned_view()
                    &&& e.details@ == exhausted_message()
                },
            },
            old(self).is_exhausted() ==> r.is_err(),
            old(self).assigned_view().len() == 0 ==> r.is_ok(),
    {
        let mut draws: Vec<Ipv4Address> = Vec::with_capacity(16);
        let mut k: u32 = 0;
        while k < ALLOCATION_ATTEMPTS
            invariant
                k <= ALLOCATION_ATTEMPTS,
                draws@.len() == k,
                self.wf(),
                forall|i: int| 0 <= i < draws@.len() ==> self.pool_view().contains(#[trigger] draws@[i]),
            decreases ALLOCATION_ATTEMPTS - k,
        {
            draws.push(self.choose_random_address());
            k = k + 1;
        }
        proof {
            lemma_first_free(draws@, self.assigned_view());
            if self.assigned_view().len() == 0 {
                assert(!self.assigned_view().contains(draws@[0]));
            }
        }
        self.allocate_from_draws(&draws)
    }

    /// Takes `address` back into the pool; an address not handed out
    /// leaves everything as it was.
    pub fn reclaim_address(&mut self, address: &Ipv4Address)
        requires
            old(self).wf(),
        ensures
            final(self).wf(),
            final(self).pool_view() == old(self).pool_view(),
            final(self).class_view() == old(self).class_view(),
            final(self).dhcp_enabled() == old(self).dhcp_enabled(),
            final(self).subnet_mask() == old(self).subnet_mask(),
            final(self).assigned_view() == without(old(self).assigned_view(), *address),
            !final(self).assigned_view().contains(*address),
    {
        proof {
            old(self).assigned_view().index_of_first_ensures(*address);
        }
        if let Some(i) = self.is_assigned(address) {
            proof {
                let k = old(self).assigned_view().index_of_first(*address).unwrap();
                assert(!(k < i));
                assert(!(i < k));
                lemma_remove_keeps_distinct(old(self).assigned_view(), i as int);
            }
            self.assigned.remove(i);
            proof {
                assert forall|j: int| 0 <= j < self.assigned_view().len() implies self.pool_view().contains(#[trigger] self.assigned_view()[j]) by {
                    lemma_remove_keeps_distinct(old(self).assigned_view(), i as int);
                    assert(old(self).assigned_view().contains(self.assigned_view()[j]));
                    let m = choose|m: int| 0 <= m < old(self).assigned_view().len() && old(self).assigned_view()[m] == self.assigned_view()[j];
                    assert(self.pool_view().contains(old(self).assigned_view()[m]));
                }
            }
        }
    }
}

/// Removing one entry from a sequence without repeats leaves a sequence
/// without repeats, without that entry, and with nothing new.
proof fn lemma_remove_keeps_distinct(s: Seq<Ipv4Address>, i: int)
    requires
        s.no_duplicates(),
        0 <= i < s.len(),
    ensures
        s.remove(i).no_duplicates(),
        !s.remove(i).contains(s[i]),
        forall|x: Ipv4Address| s.remove(i).contains(x) ==> #[trigger] s.contains(x),
{
    let r = s.remove(i);
    assert forall|x: Ipv4Address| r.contains(x) implies #[trigger] s.contains(x) by {
        let j = choose|j: int| 0 <= j < r.len() && r[j] == x;
        if j < i {
            assert(s[j] == x);
        } else {
            assert(s[j + 1] == x);
        }
    }
    assert forall|a: int, b: int| 0 <= a < r.len() && 0 <= b < r.len() && a != b implies r[a] != r[b] by {
        let sa = if a < i { a } else { a + 1 };
        let sb = if b < i { b } else { b + 1 };
        assert(r[a] == s[sa] && r[b] == s[sb]);
    }
    if r.contains(s[i]) {
        let j = choose|j: int| 0 <= j < r.len() && r[j] == s[i];
        let sj = if j < i { j } else { j + 1 };
        assert(s[sj] == s[i]);
    }
}

/// A pool with 256 addresses handed out is exhausted: allocation then
/// fails with the pool-exhausted error.
pub proof fn lemma_full_pool_is_exhausted(l: Layer3)
    requires
        l.wf(),
        l.assigned_view().len() == 256,
    ensures
        l.is_exhausted(),
{
    let assigned = l.assigned_view().to_set();
    let pool = l.pool_view().to_set();
    l.assigned_view().unique_seq_to_set();
    l.pool_view().lemma_cardinality_of_set();
    assert(assigned.subset_of(pool)) by {
        assert forall|a: Ipv4Address| assigned.contains(a) implies pool.contains(a) by {
            let j = choose|j: int| 0 <= j < l.assigned_view().len() && l.assigned_view()[j] == a;
            assert(l.pool_view().contains(l.assigned_view()[j]));
        }
    }
    vstd::set_lib::lemma_len_subset(assigned, pool);
    vstd::set_lib::lemma_subset_equality(assigned, pool);
    assert forall|a: Ipv4Address| #[trigger] l.pool_view().contains(a) implies l.assigned_view().contains(a) by {
        assert(pool.contains(a));
    }
}

/// The handed-out addresses after each address of `addresses` in turn is
/// reclaimed.
pub open spec fn reclaim_each(assigned: Seq<Ipv4Address>, addresses: Seq<Ipv4Address>) -> Seq<
    Ipv4Address,
>
    decreases addresses.len(),
{
    if addresses.len() == 0 {
        assigned
    } else {
        reclaim_each(without(assigned, addresses[0]), addresses.drop_first())
    }
}

/// Reclaiming every address of the pool hands every address back: nothing
/// stays handed out, so the pool is at full capacity again.
pub proof fn lemma_reclaim_all(l: Layer3)
    requires
        l.wf(),
    ensures
        reclaim_each(l.assigned_view(), l.pool_view()) == Seq::<Ipv4Address>::empty(),
{
    lemma_reclaim_each_within(l.assigned_view(), l.pool_view());
}

proof fn lemma_reclaim_each_within(assigned: Seq<Ipv4Address>, addresses: Seq<Ipv4Address>)
    requires
        assigned.no_duplicates(),
        forall|i: int| 0 <= i < assigned.len() ==> addresses.contains(#[trigger] assigned[i]),
    ensures
        reclaim_each(assigned, addresses) == Seq::<Ipv4Address>::empty(),
    decreases addresses.len(),
{
    if addresses.len() == 0 {
        if assigned.len() > 0 {
            assert(addresses.contains(assigned[0]));
        }
        assert(assigned =~= Seq::<Ipv4Address>::empty());
    } else {
        let x = addresses[0];
        let rest = addresses.drop_first();
        let next = without(assigned, x);
        assigned.index_of_first_ensures(x);
        if assigned.contains(x) {
            let k = assigned.index_of_first(x).unwrap();
            lemma_remove_keeps_distinct(assigned, k);
        }
        assert forall|i: int| 0 <= i < next.len() implies rest.contains(#[trigger] next[i]) by {
            assert(next.contains(next[i]));
            assert(assigned.contains(next[i]));
            let j = choose|j: int| 0 <= j < assigned.len() && assigned[j] == next[i];
            assert(addresses.contains(assigned[j]));
            let m = choose|m: int| 0 <= m < addresses.len() && addresses[m] == next[i];
            assert(next[i] != x);
            assert(m != 0);
            assert(rest[m - 1] == next[i]);
        }
        lemma_reclaim_each_within(next, rest);
    }
}

} // verus!
