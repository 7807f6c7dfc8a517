use crate::error::WalletError;
use bdk::descriptor::{get_checksum, ExtendedDescriptor};
use std::str::FromStr;
use vstd::prelude::*;

verus! {

/// A device's master-key fingerprint: four bytes, held as a big-endian `u32`.
#[derive(Clone, Copy, Debug, PartialEq, Eq, Structural)]
pub struct Fingerprint {
    pub value: u32,
}

/// The lower-case hexadecimal digit for `d < 16`.
pub open spec fn digit_char(d: nat) -> char {
    seq!['0', '1', '2', '3', '4', '5', '6', '7', '8', '9', 'a', 'b', 'c', 'd', 'e', 'f'][d as int]
}

/// Decimal text of `n`, without leading zeros.
pub open spec fn decimal(n: nat) -> Seq<char>
    decreases n,
{
    if n < 10 {
        seq![digit_char(n)]
    } else {
        decimal(n / 10).push(digit_char(n % 10))
    }
}

/// The last `count` hexadecimal digits of `v`, most significant first.
pub open spec fn hex_digits(v: nat, count: nat) -> Seq<char>
    decreases count,
{
    if count == 0 {
        seq![]
    } else {
        hex_digits(v / 16, (count - 1) as nat).push(digit_char(v % 16))
    }
}

/// A fingerprint as eight lower-case hexadecimal digits.
pub open spec fn fingerprint_text(f: Fingerprint) -> Seq<char> {
    hex_digits(f.value as nat, 8)
}

fn digit_text(d: u32) -> (r: &'static str)
    requires
        d < 16,
    ensures
        r@ == seq![digit_char(d as nat)],
{
    let all = "0123456789abcdef";
    proof {
        reveal_strlit("0123456789abcdef");
    }
    assert(all@ =~= seq!['0', '1', '2', '3', '4', '5', '6', '7', '8', '9', 'a', 'b', 'c', 'd', 'e', 'f']);
    let r = all.substring_char(d as usize, d as usize + 1);
    assert(r@ =~= seq![digit_char(d as nat)]);
    r
}

fn append_decimal(out: &mut String, n: u32)
    ensures
        final(out)@ == old(out)@ + decimal(n as nat),
    decreases n,
{
    if n >= 10 {
        append_decimal(out, n / 10);
    }
    out.append(digit_text(n % 10));
    proof {
        if n >= 10 {
            assert(old(out)@ + decimal(n as nat) =~= old(out)@ + decimal((n / 10) as nat) + seq![digit_char((n % 10) as nat)]);
        } else {
            assert(old(out)@ + decimal(n as nat) =~= old(out)@ + seq![digit_char((n % 10) as nat)]);
        }
    }
}

fn append_hex(out: &mut String, v: u32, count: u32)
    ensures
        final(out)@ == old(out)@ + hex_digits(v as nat, count as nat),
    decreases count,
{
    if count > 0 {
        append_hex(out, v / 16, count - 1);
        out.append(digit_text(v % 16));
        assert(old(out)@ + hex_digits(v as nat, count as nat) =~= old(out)@ + hex_digits((v / 16) as nat, (count - 1) as nat) + seq![digit_char((v % 16) as nat)]);
    } else {
        assert(old(out)@ + hex_digits(v as nat, count as nat) =~= old(out)@);
    }
}

impl Fingerprint {
    /// The fingerprint as eight lower-case hexadecimal digits.
    pub fn to_hex(&self) -> (r: String)
        ensures
            r@ == fingerprint_text(*self),
    {
        let mut out = String::new();
        append_hex(&mut out, self.value, 8);
        out
    }
}

/// One step of a BIP32 derivation path.
#[derive(Clone, Copy, Debug, PartialEq, Eq, Structural)]
pub struct ChildNumber {
    pub index: u32,
    pub hardened: bool,
}

/// A BIP32 derivation path below the master key.
#[derive(Clone, Debug)]
pub struct DerivationPath {
    pub steps: Vec<ChildNumber>,
}

/// A step as text: its index in decimal, then `h` when hardened.
pub open spec fn step_text(c: ChildNumber) -> Seq<char> {
    decimal(c.index as nat) + if c.hardened {
        seq!['h']
    } else {
        seq![]
    }
}

/// The steps as text, each preceded by `/`.
pub open spec fn steps_text(steps: Seq<ChildNumber>) -> Seq<char>
    decreases steps.len(),
{
    if steps.len() == 0 {
        seq![]
    } else {
        steps_text(steps.drop_last()) + seq!['/'] + step_text(steps.last())
    }
}

/// The human-readable path: the root marker `m`, then the steps.
pub open spec fn path_text(steps: Seq<ChildNumber>) -> Seq<char> {
    seq!['m'] + steps_text(steps)
}

/// The key origin: the path text with its root marker replaced by the fingerprint.
pub open spec fn origin_text(f: Fingerprint, steps: Seq<ChildNumber>) -> Seq<char> {
    fingerprint_text(f) + steps_text(steps)
}

/// The last path element: the index in decimal, or `*` for every index.
pub open spec fn index_text(index: Option<u32>) -> Seq<char> {
    match index {
        Some(i) => decimal(i as nat),
        None => seq!['*'],
    }
}

/// `wpkh([<origin>]<xpub>/<branch>/<index>)`, where the branch is `1` for change
/// addresses and `0` for receive addresses.
pub open spec fn descriptor_text(
    f: Fingerprint,
    steps: Seq<ChildNumber>,
    xpub: Seq<char>,
    index: Option<u32>,
    change: bool,
) -> Seq<char> {
    seq!['w', 'p', 'k', 'h', '(', '['] + origin_text(f, steps) + seq![']'] + xpub + seq!['/']
        + if change {
        seq!['1']
    } else {
        seq!['0']
    } + seq!['/'] + index_text(index) + seq![')']
}

/// A descriptor followed by `#` and its checksum.
pub open spec fn checksummed_text(body: Seq<char>, checksum: Seq<char>) -> Seq<char> {
    body + seq!['#'] + checksum
}

/// The descriptor checksum of `s`, or `None` when `s` holds a character outside
/// the descriptor alphabet.
pub uninterp spec fn checksum_of(s: Seq<char>) -> Option<Seq<char>>;

/// Whether `s` parses as an output descriptor over public keys.
pub uninterp spec fn parses_as_descriptor(s: Seq<char>) -> bool;

/// What building a descriptor yields: the text when it parses back (with the
/// checksum appended when asked for), else `MalformedDescriptor`.
pub open spec fn descriptor_outcome(
    f: Fingerprint,
    steps: Seq<ChildNumber>,
    xpub: Seq<char>,
    index: Option<u32>,
    change: bool,
    with_checksum: bool,
) -> Result<Seq<char>, WalletError> {
    let body = descriptor_text(f, steps, xpub, index, change);
    if !parses_as_descriptor(body) {
        Err(WalletError::MalformedDescriptor)
    } else if !with_checksum {
        Ok(body)
    } else {
        match checksum_of(body) {
            Some(c) => Ok(checksummed_text(body, c)),
            None => Err(WalletError::MalformedDescriptor),
        }
    }
}

/// Building a descriptor is a function of its inputs alone: two builds from the
/// same fingerprint, path, key, index, branch and checksum flag give the same
/// outcome, byte for byte.
pub proof fn descriptor_is_deterministic(
    f1: Fingerprint,
    steps1: Seq<ChildNumber>,
    xpub1: Seq<char>,
    index1: Option<u32>,
    change1: bool,
    with_checksum1: bool,
    f2: Fingerprint,
    steps2: Seq<ChildNumber>,
    xpub2: Seq<char>,
    index2: Option<u32>,
    change2: bool,
    with_checksum2: bool,
)
    requires
        f1 == f2,
        steps1 == steps2,
        xpub1 == xpub2,
        index1 == index2,
        change1 == change2,
        with_checksum1 == with_checksum2,
    ensures
        descriptor_outcome(f1, steps1, xpub1, index1, change1, with_checksum1) == descriptor_outcome(
            f2,
            steps2,
            xpub2,
            index2,
            change2,
            with_checksum2,
        ),
{
}

/// Whether the text holds no `#`.
pub open spec fn free_of_hash(s: Seq<char>) -> bool {
    forall|i: int| 0 <= i < s.len() ==> s[i] != '#'
}

proof fn lemma_digit_not_hash(d: nat)
    requires
        d < 16,
    ensures
        digit_char(d) != '#',
{
    let digits = seq!['0', '1', '2', '3', '4', '5', '6', '7', '8', '9', 'a', 'b', 'c', 'd', 'e', 'f'];
    assert(forall|k: int| 0 <= k < 16 ==> digits[k] != '#');
}

proof fn lemma_decimal_free_of_hash(n: nat)
    ensures
        free_of_hash(decimal(n)),
    decreases n,
{
    lemma_digit_not_hash(n % 10);
    if n >= 10 {
        lemma_decimal_free_of_hash(n / 10);
    }
}

proof fn lemma_hex_free_of_hash(v: nat, count: nat)
    ensures
        free_of_hash(hex_digits(v, count)),
    decreases count,
{
    if count > 0 {
        lemma_digit_not_hash(v % 16);
        lemma_hex_free_of_hash(v / 16, (count - 1) as nat);
    }
}

proof fn lemma_steps_free_of_hash(steps: Seq<ChildNumber>)
    ensures
        free_of_hash(steps_text(steps)),
    decreases steps.len(),
{
    if steps.len() > 0 {
        lemma_steps_free_of_hash(steps.drop_last());
        lemma_decimal_free_of_hash(steps.last().index as nat);
    }
}

proof fn lemma_concat_free_of_hash(a: Seq<char>, b: Seq<char>)
    requires
        free_of_hash(a),
        free_of_hash(b),
    ensures
        free_of_hash(a + b),
{
    assert forall|i: int| 0 <= i < (a + b).len() implies (a + b)[i] != '#' by {
        if i >= a.len() {
            assert((a + b)[i] == b[i - a.len()]);
        }
    }
}

/// A descriptor built from a key free of `#` is free of `#` too.
proof fn lemma_descriptor_free_of_hash(
    f: Fingerprint,
    steps: Seq<ChildNumber>,
    xpub: Seq<char>,
    index: Option<u32>,
    change: bool,
)
    requires
        free_of_hash(xpub),
    ensures
        free_of_hash(descriptor_text(f, steps, xpub, index, change)),
{
    lemma_hex_free_of_hash(f.value as nat, 8);
    lemma_steps_free_of_hash(steps);
    if let Some(i) = index {
        lemma_decimal_free_of_hash(i as nat);
    }
    let head = seq!['w', 'p', 'k', 'h', '(', '['];
    let branch = if change {
        seq!['1']
    } else {
        seq!['0']
    };
    assert(free_of_hash(head));
    assert(free_of_hash(branch));
    assert(free_of_hash(seq![']']));
    assert(free_of_hash(seq!['/']));
    assert(free_of_hash(seq![')']));
    assert(free_of_hash(seq!['*']));
    lemma_concat_free_of_hash(fingerprint_text(f), steps_text(steps));
    lemma_concat_free_of_hash(head, origin_text(f, steps));
    lemma_concat_free_of_hash(head + origin_text(f, steps), seq![']']);
    lemma_concat_free_of_hash(head + origin_text(f, steps) + seq![']'], xpub);
    lemma_concat_free_of_hash(head + origin_text(f, steps) + seq![']'] + xpub, seq!['/']);
    lemma_concat_free_of_hash(head + origin_text(f, steps) + seq![']'] + xpub + seq!['/'], branch);
    lemma_concat_free_of_hash(head + origin_text(f, steps) + seq![']'] + xpub + seq!['/'] + branch, seq!['/']);
    lemma_concat_free_of_hash(
        head + origin_text(f, steps) + seq![']'] + xpub + seq!['/'] + branch + seq!['/'],
        index_text(index),
    );
    lemma_concat_free_of_hash(
        head + origin_text(f, steps) + seq![']'] + xpub + seq!['/'] + branch + seq!['/'] + index_text(index),
        seq![')'],
    );
}

/// A descriptor built with its checksum is a text that parses as a descriptor,
/// followed by `#` and the checksum computed over exactly that text. When the
/// key holds no `#`, that `#` is the first one, so the text splits back at it.
pub proof fn checksummed_descriptor_validates(
    f: Fingerprint,
    steps: Seq<ChildNumber>,
    xpub: Seq<char>,
    index: Option<u32>,
    change: bool,
    s: Seq<char>,
)
    requires
        descriptor_outcome(f, steps, xpub, index, change, true) == Ok::<Seq<char>, WalletError>(s),
    ensures
        parses_as_descriptor(descriptor_text(f, steps, xpub, index, change)),
        checksum_of(descriptor_text(f, steps, xpub, index, change)) is Some,
        s == checksummed_text(
            descriptor_text(f, steps, xpub, index, change),
            checksum_of(descriptor_text(f, steps, xpub, index, change))->0,
        ),
        free_of_hash(xpub) ==> free_of_hash(
            s.subrange(0, descriptor_text(f, steps, xpub, index, change).len() as int),
        ) && s[descriptor_text(f, steps, xpub, index, change).len() as int] == '#',
{
    let body = descriptor_text(f, steps, xpub, index, change);
    if free_of_hash(xpub) {
        lemma_descriptor_free_of_hash(f, steps, xpub, index, change);
        assert(s.subrange(0, body.len() as int) =~= body);
    }
}

/// Relies on bdk::descriptor::get_checksum: the eight-character checksum of a
/// descriptor, or an error when the text holds a character outside the
/// descriptor alphabet.
#[verifier::external_body]
fn descriptor_checksum(s: &str) -> (r: Option<String>)
    ensures
        r matches Some(c) ==> checksum_of(s@) == Some(c@),
        r matches Some(c) ==> c@.len() == 8,
        r is None ==> checksum_of(s@) is None,
{
    get_checksum(s).ok()
}

/// Relies on `FromStr` of miniscript's `Descriptor<DescriptorPublicKey>`
/// (bdk's `ExtendedDescriptor`): whether the text parses as a descriptor.
#[verifier::external_body]
fn descriptor_parses(s: &str) -> (r: bool)
    ensures
        r == parses_as_descriptor(s@),
{
    ExtendedDescriptor::from_str(s).is_ok()
}

fn append_literal(out: &mut String, lit: &str)
    ensures
        final(out)@ == old(out)@ + lit@,
{
    out.append(lit);
}

impl DerivationPath {
    /// The account path `m/84h/1h/0h`: native segwit, test networks, first account.
    pub fn segwit_test_account() -> (r: DerivationPath)
        ensures
            r.steps@ == seq![
                ChildNumber { index: 84, hardened: true },
                ChildNumber { index: 1, hardened: true },
                ChildNumber { index: 0, hardened: true },
            ],
    {
        let steps = vec![
            ChildNumber { index: 84, hardened: true },
            ChildNumber { index: 1, hardened: true },
            ChildNumber { index: 0, hardened: true },
        ];
        DerivationPath { steps }
    }

    /// The path as text, `m` followed by the steps.
    pub fn to_text(&self) -> (r: String)
        ensures
            r@ == path_text(self.steps@),
    {
        let mut out = String::new();
        proof {
            reveal_strlit("m");
        }
        append_literal(&mut out, "m");
        append_steps(&mut out, &self.steps);
        assert(out@ =~= path_text(self.steps@));
        out
    }
}

fn append_steps(out: &mut String, steps: &Vec<ChildNumber>)
    ensures
        final(out)@ == old(out)@ + steps_text(steps@),
{
    let mut i: usize = 0;
    assert(steps@.subrange(0, 0) =~= Seq::<ChildNumber>::empty());
    while i < steps.len()
        invariant
            i <= steps@.len(),
            out@ == old(out)@ + steps_text(steps@.subrange(0, i as int)),
        decreases steps@.len() - i,
    {
        let c = steps[i];
        let ghost before = out@;
        proof {
            reveal_strlit("/");
            reveal_strlit("h");
        }
        append_literal(out, "/");
        append_decimal(out, c.index);
        if c.hardened {
            append_literal(out, "h");
        }
        proof {
            let prefix = steps@.subrange(0, i as int + 1);
            assert(prefix.drop_last() =~= steps@.subrange(0, i as int));
            assert(prefix.last() == c);
            assert(out@ =~= before + seq!['/'] + step_text(c));
            assert(out@ =~= old(out)@ + steps_text(prefix));
        }
        i = i + 1;
    }
    assert(steps@.subrange(0, steps@.len() as int) =~= steps@);
}

/// The descriptor text for a key at `steps` below the device with fingerprint
/// `fingerprint`, before any validation.
pub fn descriptor_body(
    path: &DerivationPath,
    fingerprint: Fingerprint,
    xpub: &str,
    index: Option<u32>,
    change: bool,
) -> (r: String)
    ensures
        r@ == descriptor_text(fingerprint, path.steps@, xpub@, index, change),
{
    proof {
        reveal_strlit("wpkh([");
        reveal_strlit("]");
        reveal_strlit("/");
        reveal_strlit("0");
        reveal_strlit("1");
        reveal_strlit("*");
        reveal_strlit(")");
    }
    let mut out = String::new();
    append_literal(&mut out, "wpkh([");
    let fp = fingerprint.to_hex();
    append_literal(&mut out, fp.as_str());
    append_steps(&mut out, &path.steps);
    append_literal(&mut out, "]");
    append_literal(&mut out, xpub);
    append_literal(&mut out, "/");
    if change {
        append_literal(&mut out, "1");
    } else {
        append_literal(&mut out, "0");
    }
    append_literal(&mut out, "/");
    match index {
        Some(i) => append_decimal(&mut out, i),
        None => append_literal(&mut out, "*"),
    }
    append_literal(&mut out, ")");
    assert(out@ =~= descriptor_text(fingerprint, path.steps@, xpub@, index, change));
    out
}

/// Appends `#` and the checksum to a descriptor.
pub fn append_checksum(body: String, checksum: &str) -> (r: String)
    ensures
        r@ == checksummed_text(body@, checksum@),
{
    proof {
        reveal_strlit("#");
    }
    let mut out = body;
    append_literal(&mut out, "#");
    append_literal(&mut out, checksum);
    assert(out@ =~= checksummed_text(body@, checksum@));
    out
}

/// Builds the descriptor of the key `xpub`, found at `path` below the device
/// with fingerprint `fingerprint`, for the change or receive branch and one
/// index or every index, with the checksum appended when `checksum` is set. The
/// text is parsed back before it is returned.
pub fn create_descriptor(
    path: &DerivationPath,
    fingerprint: Fingerprint,
    xpub: &str,
    index: Option<u32>,
    change: bool,
    checksum: bool,
) -> (r: Result<String, WalletError>)
    ensures
        match r {
            Ok(s) => descriptor_outcome(fingerprint, path.steps@, xpub@, index, change, checksum)
                == Ok::<Seq<char>, WalletError>(s@),
            Err(e) => descriptor_outcome(fingerprint, path.steps@, xpub@, index, change, checksum)
                == Err::<Seq<char>, WalletError>(e),
        },
{
    let body = descriptor_body(path, fingerprint, xpub, index, change);
    if !descriptor_parses(body.as_str()) {
        return Err(WalletError::MalformedDescriptor);
    }
    if !checksum {
        return Ok(body);
    }
    match descriptor_checksum(body.as_str()) {
        Some(c) => Ok(append_checksum(body, c.as_str())),
        None => Err(WalletError::MalformedDescriptor),
    }
}

} // verus!
