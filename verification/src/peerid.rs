use rand::Rng;
use vstd::prelude::*;
use vstd::string::StrSliceExecFns;
use vstd::string::StringExecFns;

verus! {

/// Number of symbols in a room code, the short identifier a person types in.
pub const SHORT_ID_LENGTH: usize = 4;

/// Number of symbols in a long identifier, which is long enough never to
/// collide with a room code or with another long identifier in practice.
pub const LONG_ID_LENGTH: usize = 10;

/// Number of symbols in the alphabet.
pub const ALPHABET_SIZE: usize = 36;

/// The symbols a base code is drawn from, in the order in which a random
/// index selects them.
pub open spec fn alphabet() -> Seq<char> {
    "ABCDEFGHIJKLMNOPQRSTUVWXYZ0123456789"@
}

/// The namespace prefix that turns a base code into a wire identifier.
pub open spec fn wire_prefix() -> Seq<char> {
    "camas-file-transfer-"@
}

/// `c` is one of the 36 symbols `A`-`Z`, `0`-`9`.
pub open spec fn is_alphabet_symbol(c: char) -> bool {
    ('A' <= c && c <= 'Z') || ('0' <= c && c <= '9')
}

/// Every character of `base` is a symbol of the alphabet.
pub open spec fn valid_base_spec(base: Seq<char>) -> bool {
    forall|i: int| 0 <= i < base.len() ==> is_alphabet_symbol(#[trigger] base[i])
}

/// The alphabet holds exactly the 36 symbols `A`-`Z`, `0`-`9`.
pub proof fn lemma_alphabet_symbols()
    ensures
        alphabet().len() == ALPHABET_SIZE,
        valid_base_spec(alphabet()),
        forall|c: char| is_alphabet_symbol(c) ==> alphabet().contains(c),
{
    reveal_strlit("ABCDEFGHIJKLMNOPQRSTUVWXYZ0123456789");
    let a = alphabet();
    assert forall|c: char| is_alphabet_symbol(c) implies a.contains(c) by {
        if 'A' <= c && c <= 'Z' {
            let i = (c as int) - ('A' as int);
            assert(a[i] == c);
        } else {
            let i = (c as int) - ('0' as int) + 26;
            assert(a[i] == c);
        }
    }
}

fn is_symbol(c: char) -> (r: bool)
    ensures
        r == is_alphabet_symbol(c),
{
    ('A' <= c && c <= 'Z') || ('0' <= c && c <= '9')
}

/// Whether every character of `base_id` is a symbol of the alphabet.
fn all_symbols(base_id: &str) -> (r: bool)
    ensures
        r == valid_base_spec(base_id@),
{
    broadcast use vstd::string::group_string_axioms;

    let mut ok = true;
    for c in it: base_id.chars()
        invariant
            it.seq() == base_id@,
            ok == valid_base_spec(base_id@.take(it.index())),
    {
        proof {
            let before = base_id@.take(it.index());
            let after = base_id@.take(it.index() + 1);
            assert(after == before.push(c));
            if valid_base_spec(after) {
                assert forall|i: int| 0 <= i < before.len() implies is_alphabet_symbol(
                    #[trigger] before[i],
                ) by {
                    assert(before[i] == after[i]);
                }
                assert(after[it.index()] == c);
            }
        }
        if !is_symbol(c) {
            ok = false;
        }
    }
    assert(base_id@.take(base_id@.len() as int) == base_id@);
    ok
}

/// Draws an index below `bound` from the thread-local generator
/// (`rand::thread_rng` and `Rng::gen_range` over `0..bound`). Which index
/// comes back is left open; `gen_range` samples inside the range it is given
/// and panics on an empty range, which `bound > 0` rules out.
#[verifier::external_body]
fn random_index(bound: usize) -> (index: usize)
    requires
        bound > 0,
    ensures
        index < bound,
{
    rand::thread_rng().gen_range(0..bound)
}

/// A string of `len` symbols, each drawn at random from the alphabet.
fn random_alphabet_string(len: usize) -> (r: String)
    ensures
        r@.len() == len,
        valid_base_spec(r@),
{
    let symbols = "ABCDEFGHIJKLMNOPQRSTUVWXYZ0123456789";
    proof {
        lemma_alphabet_symbols();
        reveal_strlit("ABCDEFGHIJKLMNOPQRSTUVWXYZ0123456789");
    }
    let mut r = String::new();
    let mut n: usize = 0;
    while n < len
        invariant
            n <= len,
            r@.len() == n,
            valid_base_spec(r@),
            symbols@ == alphabet(),
            symbols.is_ascii(),
            alphabet().len() == ALPHABET_SIZE,
            valid_base_spec(alphabet()),
        decreases len - n,
    {
        let index = random_index(ALPHABET_SIZE);
        let symbol = symbols.substring_ascii(index, index + 1);
        assert(symbol@ == seq![alphabet()[index as int]]);
        r.append(symbol);
        n = n + 1;
    }
    r
}

/// An identifier under which a peer registers with the signaling service.
#[derive(Debug, PartialEq, Eq)]
pub struct PeerID {
    base_id: String,
    full_id: String,
}

/// What a [`PeerID`] stands for: the base code a person sees, and the wire
/// identifier the signaling service sees.
pub struct PeerIDView {
    pub base: Seq<char>,
    pub full: Seq<char>,
}

impl View for PeerID {
    type V = PeerIDView;

    closed spec fn view(&self) -> PeerIDView {
        PeerIDView { base: self.base_id@, full: self.full_id@ }
    }
}

impl Clone for PeerID {
    fn clone(&self) -> (copy: Self)
        ensures
            copy == *self,
    {
        proof {
            use_type_invariant(self);
        }
        PeerID { base_id: self.base_id.clone(), full_id: self.full_id.clone() }
    }
}

impl PeerIDView {
    /// The base code holds only alphabet symbols and the wire identifier is
    /// the namespace prefix followed by the base code.
    pub open spec fn wf(self) -> bool {
        &&& valid_base_spec(self.base)
        &&& self.full == wire_prefix() + self.base
    }
}

/// An identifier that is valid is what `new` makes of its own base code, and,
/// where that has four symbols, what `new_short_id` makes of it: every
/// identifier is accepted again.
pub proof fn lemma_valid_id_is_accepted_again(id: PeerIDView)
    requires
        id.wf(),
    ensures
        PeerID::spec_new(id.base) == Some(id),
        id.base.len() == SHORT_ID_LENGTH ==> PeerID::spec_new_short_id(id.base) == Some(id),
        id.base.len() != SHORT_ID_LENGTH ==> PeerID::spec_new_short_id(id.base) is None,
{
}

impl PeerID {
    /// Every identifier is valid, however it was made.
    #[verifier::type_invariant]
    spec fn valid(self) -> bool {
        self@.wf()
    }

    /// What [`PeerID::new`] makes of a base code.
    pub open spec fn spec_new(base: Seq<char>) -> Option<PeerIDView> {
        if valid_base_spec(base) {
            Some(PeerIDView { base, full: wire_prefix() + base })
        } else {
            None
        }
    }

    /// What [`PeerID::new_short_id`] makes of a base code.
    pub open spec fn spec_new_short_id(base: Seq<char>) -> Option<PeerIDView> {
        if base.len() == SHORT_ID_LENGTH {
            Self::spec_new(base)
        } else {
            None
        }
    }

    /// The identifier with base code `base_id`, if every character of it is an
    /// alphabet symbol.
    pub fn new(base_id: String) -> (r: Option<PeerID>)
        ensures
            r is Some <==> valid_base_spec(base_id@),
            r matches Some(id) ==> Some(id@) == Self::spec_new(base_id@) && id@.wf(),
    {
        if !Self::valid_base(base_id.as_str()) {
            return None;
        }
        Some(Self::with_prefix(base_id))
    }

    /// A fresh room code: four symbols drawn at random.
    pub fn new_random_short_id() -> (id: PeerID)
        ensures
            id@.wf(),
            id@.base.len() == SHORT_ID_LENGTH,
            Self::spec_new_short_id(id@.base) == Some(id@),
    {
        Self::with_prefix(random_alphabet_string(SHORT_ID_LENGTH))
    }

    /// A fresh long identifier: ten symbols drawn at random.
    pub fn new_random_long_id() -> (id: PeerID)
        ensures
            id@.wf(),
            id@.base.len() == LONG_ID_LENGTH,
            Self::spec_new(id@.base) == Some(id@),
    {
        Self::with_prefix(random_alphabet_string(LONG_ID_LENGTH))
    }

    fn with_prefix(base_id: String) -> (id: PeerID)
        requires
            valid_base_spec(base_id@),
        ensures
            id@.wf(),
            Some(id@) == Self::spec_new(base_id@),
    {
        let mut full_id = String::from_str("camas-file-transfer-");
        full_id.append(base_id.as_str());
        PeerID { base_id, full_id }
    }

    /// The room code `base_id`, if it is four alphabet symbols.
    pub fn new_short_id(base_id: String) -> (r: Option<PeerID>)
        ensures
            r is Some <==> base_id@.len() == SHORT_ID_LENGTH && valid_base_spec(base_id@),
            r matches Some(id) ==> Some(id@) == Self::spec_new_short_id(base_id@) && id@.wf(),
    {
        if !Self::valid_base(base_id.as_str()) {
            return None;
        }
        proof {
            // A valid base code is ASCII, so it has as many bytes as characters.
            vstd::utf8::is_ascii_chars_encode_utf8(base_id@);
        }
        if base_id.as_str().as_bytes().len() != SHORT_ID_LENGTH {
            return None;
        }
        PeerID::new(base_id)
    }

    /// Whether every character of `base_id` is one of the 36 alphabet symbols.
    pub fn valid_base(base_id: &str) -> (r: bool)
        ensures
            r == valid_base_spec(base_id@),
    {
        all_symbols(base_id)
    }

    /// The base code, which holds alphabet symbols only.
    pub fn base(&self) -> (r: &str)
        ensures
            r@ == self@.base,
            self@.wf(),
    {
        proof {
            use_type_invariant(self);
        }
        self.base_id.as_str()
    }

    /// The wire identifier: the namespace prefix, then the base code.
    pub fn full(&self) -> (r: &str)
        ensures
            r@ == self@.full,
            self@.wf(),
    {
        proof {
            use_type_invariant(self);
        }
        self.full_id.as_str()
    }
}

/// The text of an address fragment without the `#` that may lead it.
pub open spec fn without_hash(hash: Seq<char>) -> Seq<char> {
    if hash.len() > 0 && hash[0] == '#' {
        hash.skip(1)
    } else {
        hash
    }
}

/// Whether the fragment of an address, with or without its leading `#`, is a
/// room code: four alphabet symbols.
pub fn hash_is_peer_id(hash: &str) -> (r: bool)
    ensures
        r == (without_hash(hash@).len() == SHORT_ID_LENGTH && valid_base_spec(
            without_hash(hash@),
        )),
{
    let len = hash.unicode_len();
    if len > 0 && hash.get_char(0) == '#' {
        let trimmed = hash.substring_char(1, len);
        assert(trimmed@ == hash@.skip(1));
        trimmed.unicode_len() == SHORT_ID_LENGTH && PeerID::valid_base(trimmed)
    } else {
        len == SHORT_ID_LENGTH && PeerID::valid_base(hash)
    }
}

} // verus!
