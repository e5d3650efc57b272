//! Password generation: a password of a given length drawn from chosen
//! character classes, with at least one character of each chosen class when
//! the length allows it.

use crate::primitives::{choose_byte, shuffle_bytes};
use vstd::prelude::*;

verus! {

/// The uppercase letters, without `O`: `ABCDEFGHIJKLMNPQRSTUVWXYZ`.
pub open spec fn upper_class() -> Seq<u8> {
    seq![
        'A' as u8, 'B' as u8, 'C' as u8, 'D' as u8, 'E' as u8, 'F' as u8, 'G' as u8, 'H' as u8,
        'I' as u8, 'J' as u8, 'K' as u8, 'L' as u8, 'M' as u8, 'N' as u8, 'P' as u8, 'Q' as u8,
        'R' as u8, 'S' as u8, 'T' as u8, 'U' as u8, 'V' as u8, 'W' as u8, 'X' as u8, 'Y' as u8,
        'Z' as u8,
    ]
}

/// The lowercase letters, without `i` and `l`: `abcdefghjkmnopqrstuvwxyz`.
pub open spec fn lower_class() -> Seq<u8> {
    seq![
        'a' as u8, 'b' as u8, 'c' as u8, 'd' as u8, 'e' as u8, 'f' as u8, 'g' as u8, 'h' as u8,
        'j' as u8, 'k' as u8, 'm' as u8, 'n' as u8, 'o' as u8, 'p' as u8, 'q' as u8, 'r' as u8,
        's' as u8, 't' as u8, 'u' as u8, 'v' as u8, 'w' as u8, 'x' as u8, 'y' as u8, 'z' as u8,
    ]
}

/// The digits, without `0`: `123456789`.
pub open spec fn number_class() -> Seq<u8> {
    seq![
        '1' as u8, '2' as u8, '3' as u8, '4' as u8, '5' as u8, '6' as u8, '7' as u8, '8' as u8,
        '9' as u8,
    ]
}

/// The symbols: `!@#$%^&*?~`.
pub open spec fn symbol_class() -> Seq<u8> {
    seq![
        '!' as u8, '@' as u8, '#' as u8, '$' as u8, '%' as u8, '^' as u8, '&' as u8, '*' as u8,
        '?' as u8, '~' as u8,
    ]
}

/// The characters of the classes that are not left out, in the order upper,
/// lower, number, symbol.
pub open spec fn class_charset(
    no_upper: bool,
    no_lower: bool,
    no_number: bool,
    no_symbol: bool,
) -> Seq<u8> {
    (if no_upper { Seq::empty() } else { upper_class() })
        + (if no_lower { Seq::empty() } else { lower_class() })
        + (if no_number { Seq::empty() } else { number_class() })
        + (if no_symbol { Seq::empty() } else { symbol_class() })
}

/// How many classes are not left out.
pub open spec fn class_count(
    no_upper: bool,
    no_lower: bool,
    no_number: bool,
    no_symbol: bool,
) -> nat {
    (if no_upper { 0nat } else { 1nat })
        + (if no_lower { 0nat } else { 1nat })
        + (if no_number { 0nat } else { 1nat })
        + (if no_symbol { 0nat } else { 1nat })
}

/// `c` belongs to one of the classes that are not left out.
pub open spec fn in_classes(
    no_upper: bool,
    no_lower: bool,
    no_number: bool,
    no_symbol: bool,
    c: u8,
) -> bool {
    ||| !no_upper && upper_class().contains(c)
    ||| !no_lower && lower_class().contains(c)
    ||| !no_number && number_class().contains(c)
    ||| !no_symbol && symbol_class().contains(c)
}

/// `s` holds at least one character of `class`.
pub open spec fn has_one_of(s: Seq<u8>, class: Seq<u8>) -> bool {
    exists|i: int| 0 <= i < s.len() && class.contains(#[trigger] s[i])
}

/// `s` holds at least one character of every class that is not left out.
pub open spec fn covers_classes(
    no_upper: bool,
    no_lower: bool,
    no_number: bool,
    no_symbol: bool,
    s: Seq<u8>,
) -> bool {
    &&& !no_upper ==> has_one_of(s, upper_class())
    &&& !no_lower ==> has_one_of(s, lower_class())
    &&& !no_number ==> has_one_of(s, number_class())
    &&& !no_symbol ==> has_one_of(s, symbol_class())
}

/// The characters of two sequences put together are those of either.
proof fn lemma_concat_contains(a: Seq<u8>, b: Seq<u8>, c: u8)
    ensures
        (a + b).contains(c) <==> a.contains(c) || b.contains(c),
{
    if a.contains(c) {
        let i = choose|i: int| 0 <= i < a.len() && a[i] == c;
        assert((a + b)[i] == c);
    }
    if b.contains(c) {
        let i = choose|i: int| 0 <= i < b.len() && b[i] == c;
        assert((a + b)[a.len() + i] == c);
    }
    if (a + b).contains(c) {
        let i = choose|i: int| 0 <= i < (a + b).len() && (a + b)[i] == c;
        if i < a.len() {
            assert(a[i] == c);
        } else {
            assert(b[i - a.len()] == c);
        }
    }
}

/// The character set built from the classes holds exactly their characters.
proof fn lemma_class_charset_members(
    no_upper: bool,
    no_lower: bool,
    no_number: bool,
    no_symbol: bool,
    c: u8,
)
    ensures
        class_charset(no_upper, no_lower, no_number, no_symbol).contains(c) <==> in_classes(
            no_upper,
            no_lower,
            no_number,
            no_symbol,
            c,
        ),
{
    let u: Seq<u8> = if no_upper { Seq::empty() } else { upper_class() };
    let l: Seq<u8> = if no_lower { Seq::empty() } else { lower_class() };
    let n: Seq<u8> = if no_number { Seq::empty() } else { number_class() };
    let y: Seq<u8> = if no_symbol { Seq::empty() } else { symbol_class() };
    lemma_concat_contains(u + l + n, y, c);
    lemma_concat_contains(u + l, n, c);
    lemma_concat_contains(u, l, c);
}

/// A character that `s` holds stays when one more is appended.
proof fn lemma_has_one_of_push(s: Seq<u8>, class: Seq<u8>, c: u8)
    requires
        has_one_of(s, class),
    ensures
        has_one_of(s.push(c), class),
{
    let i = choose|i: int| 0 <= i < s.len() && class.contains(#[trigger] s[i]);
    assert(s.push(c)[i] == s[i]);
}

/// A character that `s` holds is still held after its order is changed.
proof fn lemma_has_one_of_permuted(s: Seq<u8>, t: Seq<u8>, class: Seq<u8>)
    requires
        has_one_of(s, class),
        s.to_multiset() == t.to_multiset(),
    ensures
        has_one_of(t, class),
{
    let i = choose|i: int| 0 <= i < s.len() && class.contains(#[trigger] s[i]);
    s.to_multiset_ensures();
    t.to_multiset_ensures();
    assert(s.contains(s[i]));
    assert(s.to_multiset().count(s[i]) > 0);
    assert(t.to_multiset().count(s[i]) > 0);
    let j = choose|j: int| 0 <= j < t.len() && t[j] == s[i];
    assert(class.contains(t[j]));
}

/// Appending a character keeps every class covered.
proof fn lemma_covers_push(
    no_upper: bool,
    no_lower: bool,
    no_number: bool,
    no_symbol: bool,
    s: Seq<u8>,
    c: u8,
)
    requires
        covers_classes(no_upper, no_lower, no_number, no_symbol, s),
    ensures
        covers_classes(no_upper, no_lower, no_number, no_symbol, s.push(c)),
{
    if !no_upper {
        lemma_has_one_of_push(s, upper_class(), c);
    }
    if !no_lower {
        lemma_has_one_of_push(s, lower_class(), c);
    }
    if !no_number {
        lemma_has_one_of_push(s, number_class(), c);
    }
    if !no_symbol {
        lemma_has_one_of_push(s, symbol_class(), c);
    }
}

/// Reordering keeps every class covered.
proof fn lemma_covers_permuted(
    no_upper: bool,
    no_lower: bool,
    no_number: bool,
    no_symbol: bool,
    s: Seq<u8>,
    t: Seq<u8>,
)
    requires
        covers_classes(no_upper, no_lower, no_number, no_symbol, s),
        s.to_multiset() == t.to_multiset(),
    ensures
        covers_classes(no_upper, no_lower, no_number, no_symbol, t),
{
    if !no_upper {
        lemma_has_one_of_permuted(s, t, upper_class());
    }
    if !no_lower {
        lemma_has_one_of_permuted(s, t, lower_class());
    }
    if !no_number {
        lemma_has_one_of_permuted(s, t, number_class());
    }
    if !no_symbol {
        lemma_has_one_of_permuted(s, t, symbol_class());
    }
}

/// Every character of `t` is one of `s` when the two hold the same characters.
proof fn lemma_permuted_members(s: Seq<u8>, t: Seq<u8>)
    requires
        s.to_multiset() == t.to_multiset(),
    ensures
        t.len() == s.len(),
        forall|i: int| 0 <= i < t.len() ==> s.contains(#[trigger] t[i]),
{
    s.to_multiset_ensures();
    t.to_multiset_ensures();
    assert forall|i: int| 0 <= i < t.len() implies s.contains(#[trigger] t[i]) by {
        assert(t.contains(t[i]));
        assert(t.to_multiset().count(t[i]) > 0);
        assert(s.to_multiset().count(t[i]) > 0);
    }
}

/// The uppercase letters, without `O`, as bytes.
fn upper_chars() -> (r: Vec<u8>)
    ensures
        r@ == upper_class(),
{
    let r: Vec<u8> = vec![
        'A' as u8, 'B' as u8, 'C' as u8, 'D' as u8, 'E' as u8, 'F' as u8, 'G' as u8, 'H' as u8,
        'I' as u8, 'J' as u8, 'K' as u8, 'L' as u8, 'M' as u8, 'N' as u8, 'P' as u8, 'Q' as u8,
        'R' as u8, 'S' as u8, 'T' as u8, 'U' as u8, 'V' as u8, 'W' as u8, 'X' as u8, 'Y' as u8,
        'Z' as u8,
    ];
    assert(r@ =~= upper_class());
    r
}

/// The lowercase letters, without `i` and `l`, as bytes.
fn lower_chars() -> (r: Vec<u8>)
    ensures
        r@ == lower_class(),
{
    let r: Vec<u8> = vec![
        'a' as u8, 'b' as u8, 'c' as u8, 'd' as u8, 'e' as u8, 'f' as u8, 'g' as u8, 'h' as u8,
        'j' as u8, 'k' as u8, 'm' as u8, 'n' as u8, 'o' as u8, 'p' as u8, 'q' as u8, 'r' as u8,
        's' as u8, 't' as u8, 'u' as u8, 'v' as u8, 'w' as u8, 'x' as u8, 'y' as u8, 'z' as u8,
    ];
    assert(r@ =~= lower_class());
    r
}

/// The digits, without `0`, as bytes.
fn number_chars() -> (r: Vec<u8>)
    ensures
        r@ == number_class(),
{
    let r: Vec<u8> = vec![
        '1' as u8, '2' as u8, '3' as u8, '4' as u8, '5' as u8, '6' as u8, '7' as u8, '8' as u8,
        '9' as u8,
    ];
    assert(r@ =~= number_class());
    r
}

/// The symbols, as bytes.
fn symbol_chars() -> (r: Vec<u8>)
    ensures
        r@ == symbol_class(),
{
    let r: Vec<u8> = vec![
        '!' as u8, '@' as u8, '#' as u8, '$' as u8, '%' as u8, '^' as u8, '&' as u8, '*' as u8,
        '?' as u8, '~' as u8,
    ];
    assert(r@ =~= symbol_class());
    r
}

/// Appends one character drawn at random from `chars`, and returns it.
fn push_one_of(s: &mut Vec<u8>, chars: &Vec<u8>) -> (c: u8)
    requires
        chars@.len() > 0,
    ensures
        final(s)@ == old(s)@.push(c),
        chars@.contains(c),
{
    let c = match choose_byte(chars.as_slice()) {
        Some(c) => c,
        // `choose_byte` gives `None` only for an empty slice.
        None => chars[0],
    };
    s.push(c);
    c
}

/// A password generator, set up by leaving character classes out and then
/// building the character set that fills the password.
pub struct Generator {
    no_upper: bool,
    no_lower: bool,
    no_number: bool,
    no_symbol: bool,
    charset: Vec<u8>,
}

impl Generator {
    /// Whether uppercase letters are left out.
    pub closed spec fn omits_upper(&self) -> bool {
        self.no_upper
    }

    /// Whether lowercase letters are left out.
    pub closed spec fn omits_lower(&self) -> bool {
        self.no_lower
    }

    /// Whether digits are left out.
    pub closed spec fn omits_number(&self) -> bool {
        self.no_number
    }

    /// Whether symbols are left out.
    pub closed spec fn omits_symbol(&self) -> bool {
        self.no_symbol
    }

    /// The character set that fills a password beyond one character per class.
    pub closed spec fn charset(&self) -> Seq<u8> {
        self.charset@
    }

    /// The characters of the classes that are not left out.
    pub open spec fn classes(&self) -> Seq<u8> {
        class_charset(
            self.omits_upper(),
            self.omits_lower(),
            self.omits_number(),
            self.omits_symbol(),
        )
    }

    /// How many classes are not left out.
    pub open spec fn class_count(&self) -> nat {
        class_count(
            self.omits_upper(),
            self.omits_lower(),
            self.omits_number(),
            self.omits_symbol(),
        )
    }

    /// `s` holds a character of every class that is not left out.
    pub open spec fn covers(&self, s: Seq<u8>) -> bool {
        covers_classes(
            self.omits_upper(),
            self.omits_lower(),
            self.omits_number(),
            self.omits_symbol(),
            s,
        )
    }

    /// `c` may stand in a password of this generator.
    pub open spec fn allows(&self, c: u8) -> bool {
        ||| in_classes(
            self.omits_upper(),
            self.omits_lower(),
            self.omits_number(),
            self.omits_symbol(),
            c,
        )
        ||| self.charset().contains(c)
    }

    /// A generator that leaves nothing out and has not been built yet.
    pub fn new() -> (r: Self)
        ensures
            !r.omits_upper(),
            !r.omits_lower(),
            !r.omits_number(),
            !r.omits_symbol(),
            r.charset() == Seq::<u8>::empty(),
    {
        Self {
            no_upper: false,
            no_lower: false,
            no_number: false,
            no_symbol: false,
            charset: Vec::new(),
        }
    }

    /// Leaves lowercase letters out, or not.
    pub fn no_lower(self, no_lower: bool) -> (r: Self)
        ensures
            r.omits_lower() == no_lower,
            r.omits_upper() == self.omits_upper(),
            r.omits_number() == self.omits_number(),
            r.omits_symbol() == self.omits_symbol(),
            r.charset() == self.charset(),
    {
        let mut g = self;
        g.no_lower = no_lower;
        g
    }

    /// Leaves digits out, or not.
    pub fn no_number(self, no_number: bool) -> (r: Self)
        ensures
            r.omits_number() == no_number,
            r.omits_upper() == self.omits_upper(),
            r.omits_lower() == self.omits_lower(),
            r.omits_symbol() == self.omits_symbol(),
            r.charset() == self.charset(),
    {
        let mut g = self;
        g.no_number = no_number;
        g
    }

    /// Leaves symbols out, or not.
    pub fn no_symbol(self, no_symbol: bool) -> (r: Self)
        ensures
            r.omits_symbol() == no_symbol,
            r.omits_upper() == self.omits_upper(),
            r.omits_lower() == self.omits_lower(),
            r.omits_number() == self.omits_number(),
            r.charset() == self.charset(),
    {
        let mut g = self;
        g.no_symbol = no_symbol;
        g
    }

    /// Leaves uppercase letters out, or not.
    pub fn no_upper(self, no_upper: bool) -> (r: Self)
        ensures
            r.omits_upper() == no_upper,
            r.omits_lower() == self.omits_lower(),
            r.omits_number() == self.omits_number(),
            r.omits_symbol() == self.omits_symbol(),
            r.charset() == self.charset(),
    {
        let mut g = self;
        g.no_upper = no_upper;
        g
    }

    /// Appends the characters of every class that is not left out to the
    /// character set.
    pub fn build(self) -> (r: Self)
        ensures
            r.omits_upper() == self.omits_upper(),
            r.omits_lower() == self.omits_lower(),
            r.omits_number() == self.omits_number(),
            r.omits_symbol() == self.omits_symbol(),
            r.charset() == self.charset() + self.classes(),
    {
        let mut g = self;
        if !g.no_upper {
            let chars = upper_chars();
            g.charset.extend_from_slice(chars.as_slice());
        }
        if !g.no_lower {
            let chars = lower_chars();
            g.charset.extend_from_slice(chars.as_slice());
        }
        if !g.no_number {
            let chars = number_chars();
            g.charset.extend_from_slice(chars.as_slice());
        }
        if !g.no_symbol {
            let chars = symbol_chars();
            g.charset.extend_from_slice(chars.as_slice());
        }
        assert(g.charset@ =~= self.charset() + self.classes());
        g
    }

    /// One character of each class that is not left out, in class order.
    fn one_of_each(&self) -> (r: Vec<u8>)
        ensures
            r@.len() == self.class_count(),
            forall|i: int| 0 <= i < r@.len() ==> self.allows(#[trigger] r@[i]),
            self.covers(r@),
    {
        let ghost (nu, nl, nn, ns) = (self.no_upper, self.no_lower, self.no_number, self.no_symbol);
        let mut picks: Vec<u8> = Vec::new();
        if !self.no_upper {
            let chars = upper_chars();
            let c = push_one_of(&mut picks, &chars);
            assert(picks@[picks@.len() - 1] == c);
        }
        assert(!nu ==> has_one_of(picks@, upper_class()));
        if !self.no_lower {
            let chars = lower_chars();
            let ghost before = picks@;
            let c = push_one_of(&mut picks, &chars);
            assert(picks@[picks@.len() - 1] == c);
            proof {
                if !nu {
                    lemma_has_one_of_push(before, upper_class(), c);
                }
            }
        }
        assert(!nu ==> has_one_of(picks@, upper_class()));
        assert(!nl ==> has_one_of(picks@, lower_class()));
        if !self.no_number {
            let chars = number_chars();
            let ghost before = picks@;
            let c = push_one_of(&mut picks, &chars);
            assert(picks@[picks@.len() - 1] == c);
            proof {
                if !nu {
                    lemma_has_one_of_push(before, upper_class(), c);
                }
                if !nl {
                    lemma_has_one_of_push(before, lower_class(), c);
                }
            }
        }
        assert(!nu ==> has_one_of(picks@, upper_class()));
        assert(!nl ==> has_one_of(picks@, lower_class()));
        assert(!nn ==> has_one_of(picks@, number_class()));
        if !self.no_symbol {
            let chars = symbol_chars();
            let ghost before = picks@;
            let c = push_one_of(&mut picks, &chars);
            assert(picks@[picks@.len() - 1] == c);
            proof {
                if !nu {
                    lemma_has_one_of_push(before, upper_class(), c);
                }
                if !nl {
                    lemma_has_one_of_push(before, lower_class(), c);
                }
                if !nn {
                    lemma_has_one_of_push(before, number_class(), c);
                }
            }
        }
        picks
    }

    /// A password of `length` characters. It starts from one character of
    /// each class that is not left out; when `length` is no more than that,
    /// it keeps `length` of those, in random order; otherwise it adds
    /// characters of the built character set and shuffles the whole.
    pub fn generate(&self, length: u8) -> (r: Vec<u8>)
        requires
            length <= self.class_count() || self.charset().len() > 0,
        ensures
            r@.len() == length,
            forall|i: int| 0 <= i < r@.len() ==> self.allows(#[trigger] r@[i]),
            length >= self.class_count() ==> self.covers(r@),
    {
        let ghost (nu, nl, nn, ns) = (self.no_upper, self.no_lower, self.no_number, self.no_symbol);
        let mut password = self.one_of_each();
        if (length as usize) <= password.len() {
            let ghost picks = password@;
            shuffle_bytes(&mut password);
            proof {
                lemma_permuted_members(picks, password@);
                lemma_covers_permuted(nu, nl, nn, ns, picks, password@);
            }
            let mut r: Vec<u8> = Vec::new();
            let mut i: usize = 0;
            while i < length as usize
                invariant
                    i <= length,
                    length <= password@.len(),
                    r@ == password@.subrange(0, i as int),
                decreases length - i,
            {
                r.push(password[i]);
                i = i + 1;
                assert(r@ =~= password@.subrange(0, i as int));
            }
            proof {
                assert forall|i: int| 0 <= i < r@.len() implies self.allows(#[trigger] r@[i]) by {
                    assert(r@[i] == password@[i]);
                    assert(picks.contains(password@[i]));
                }
                if length >= self.class_count() {
                    assert(r@ =~= password@);
                }
            }
            r
        } else {
            let extra: u8 = length - password.len() as u8;
            let mut n: u8 = 0;
            while n < extra
                invariant
                    n <= extra,
                    extra as nat == length - self.class_count(),
                    password@.len() == self.class_count() + n,
                    self.charset().len() > 0,
                    forall|i: int|
                        0 <= i < password@.len() ==> self.allows(#[trigger] password@[i]),
                    self.covers(password@),
                decreases extra - n,
            {
                let ghost before = password@;
                let c = push_one_of(&mut password, &self.charset);
                proof {
                    lemma_covers_push(
                        self.no_upper,
                        self.no_lower,
                        self.no_number,
                        self.no_symbol,
                        before,
                        c,
                    );
                    assert forall|i: int| 0 <= i < password@.len() implies self.allows(
                        #[trigger] password@[i],
                    ) by {
                        if i < before.len() {
                            assert(password@[i] == before[i]);
                        }
                    }
                }
                n = n + 1;
            }
            let ghost filled = password@;
            shuffle_bytes(&mut password);
            proof {
                lemma_permuted_members(filled, password@);
                lemma_covers_permuted(nu, nl, nn, ns, filled, password@);
                assert forall|i: int| 0 <= i < password@.len() implies self.allows(
                    #[trigger] password@[i],
                ) by {
                    assert(filled.contains(password@[i]));
                }
            }
            password
        }
    }
}

/// A password of `length` characters built by a generator that leaves out
/// the classes flagged here: every character belongs to a class that is not
/// left out, and when `length` allows it, every such class is present.
pub fn process(
    no_upper: bool,
    no_lower: bool,
    no_number: bool,
    no_symbol: bool,
    length: u8,
) -> (r: Vec<u8>)
    requires
        length == 0 || !(no_upper && no_lower && no_number && no_symbol),
    ensures
        r@.len() == length,
        forall|i: int|
            0 <= i < r@.len() ==> in_classes(
                no_upper,
                no_lower,
                no_number,
                no_symbol,
                #[trigger] r@[i],
            ),
        length >= class_count(no_upper, no_lower, no_number, no_symbol) ==> covers_classes(
            no_upper,
            no_lower,
            no_number,
            no_symbol,
            r@,
        ),
{
    let generator = Generator::new().no_upper(no_upper).no_lower(no_lower).no_number(
        no_number,
    ).no_symbol(no_symbol).build();
    assert(generator.charset() =~= class_charset(no_upper, no_lower, no_number, no_symbol));
    let r = generator.generate(length);
    proof {
        assert forall|i: int| 0 <= i < r@.len() implies in_classes(
            no_upper,
            no_lower,
            no_number,
            no_symbol,
            #[trigger] r@[i],
        ) by {
            lemma_class_charset_members(no_upper, no_lower, no_number, no_symbol, r@[i]);
        }
    }
    r
}

} // verus!
