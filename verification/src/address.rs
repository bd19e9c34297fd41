//! Chain-native account and actor addresses.
//!
//! An address is an immutable value compared by byte content: one protocol
//! byte followed by the protocol's payload.  Protocol `0` is a numeric actor
//! identifier carried as an unsigned LEB128 varint; protocols `1` (secp256k1
//! key hash), `2` (actor hash) and `3` (BLS public key) carry fixed-length
//! payloads; protocol `4` (delegated) carries a namespace varint followed by
//! a subaddress of at most 54 bytes.

use vstd::prelude::*;
use crate::error::ActorError;

verus! {

/// Unsigned LEB128 encoding: seven value bits per byte, least significant
/// group first, high bit set on every byte but the last.
pub open spec fn uvarint_enc(n: nat) -> Seq<u8>
    decreases n,
{
    if n < 128 {
        seq![n as u8]
    } else {
        seq![((n % 128) + 128) as u8] + uvarint_enc(n / 128)
    }
}

pub proof fn lemma_uvarint_enc_len(n: nat)
    ensures
        1 <= uvarint_enc(n).len(),
    decreases n,
{
    if n >= 128 {
        lemma_uvarint_enc_len(n / 128);
    }
}

/// The byte form a valid address can take: an identifier address (protocol
/// `0` with a varint payload that fits an unsigned 64-bit identifier), a
/// key-derived address with its protocol's fixed payload length, or a
/// delegated address (protocol `4` with a namespace varint and a
/// subaddress of at most 54 bytes).
pub open spec fn valid_address_bytes(s: Seq<u8>) -> bool {
    s.len() >= 2 && ((s[0] == 0 && (exists|n: nat|
        n <= u64::MAX && #[trigger] uvarint_enc(n) == s.skip(1))) || (s[0] == 1
        && s.len() == 21) || (s[0] == 2 && s.len() == 21) || (s[0] == 3
        && s.len() == 49) || (s[0] == 4 && (exists|n: nat, sub: Seq<u8>|
        n <= u64::MAX && sub.len() <= 54 && #[trigger] (uvarint_enc(n) + sub) == s.skip(1))))
}

/// A chain address, held in its canonical byte form.
#[derive(Clone, Debug)]
pub struct Address {
    pub bytes: Vec<u8>,
}

impl View for Address {
    type V = Seq<u8>;

    open spec fn view(&self) -> Seq<u8> {
        self.bytes@
    }
}

impl Address {
    /// A well-formed address holds exactly a canonical byte encoding.
    pub open spec fn wf(self) -> bool {
        valid_address_bytes(self@)
    }

    /// Encode the given actor identifier as a protocol-`0` address.
    pub fn new_id(id: u64) -> (r: Address)
        ensures
            r@ == seq![0u8] + uvarint_enc(id as nat),
            r.wf(),
    {
        let mut bytes: Vec<u8> = Vec::new();
        bytes.push(0u8);
        let mut tail = uvarint_encode(id);
        bytes.append(&mut tail);
        let r = Address { bytes };
        proof {
            assert(r@ =~= seq![0u8] + uvarint_enc(id as nat));
            lemma_uvarint_enc_len(id as nat);
            assert(r@.skip(1) =~= uvarint_enc(id as nat));
            assert(uvarint_enc(id as nat) == r@.skip(1));
        }
        r
    }

    /// Build a key-derived address from a protocol byte and its payload;
    /// rejected unless the protocol is `1`, `2` or `3` and the payload has
    /// that protocol's length.
    pub fn new_key(protocol: u8, payload: Vec<u8>) -> (r: Result<Address, ActorError>)
        ensures
            (r is Ok) <==> ((protocol == 1 || protocol == 2) && payload@.len() == 20
                || protocol == 3 && payload@.len() == 48),
            r is Ok ==> r->Ok_0@ == seq![protocol] + payload@,
            r is Ok ==> r->Ok_0.wf(),
            r is Err ==> r->Err_0 == ActorError::EncodingError,
    {
        let ok = ((protocol == 1 || protocol == 2) && payload.len() == 20)
            || (protocol == 3 && payload.len() == 48);
        if !ok {
            return Err(ActorError::EncodingError);
        }
        let ghost pv = payload@;
        let mut bytes: Vec<u8> = Vec::new();
        bytes.push(protocol);
        let mut tail = payload;
        bytes.append(&mut tail);
        let r = Address { bytes };
        proof {
            assert(r@ =~= seq![protocol] + pv);
        }
        Ok(r)
    }

    /// Build a delegated address from a namespace identifier and a
    /// subaddress; rejected exactly when the subaddress is longer than 54
    /// bytes.
    pub fn new_delegated(namespace: u64, subaddress: Vec<u8>) -> (r: Result<Address, ActorError>)
        ensures
            (r is Ok) <==> subaddress@.len() <= 54,
            r is Ok ==> r->Ok_0@ == seq![4u8] + uvarint_enc(namespace as nat) + subaddress@,
            r is Ok ==> r->Ok_0.wf(),
            r is Err ==> r->Err_0 == ActorError::EncodingError,
    {
        if subaddress.len() > 54 {
            return Err(ActorError::EncodingError);
        }
        let ghost sv = subaddress@;
        let mut bytes: Vec<u8> = Vec::new();
        bytes.push(4u8);
        let mut head = uvarint_encode(namespace);
        bytes.append(&mut head);
        let mut tail = subaddress;
        bytes.append(&mut tail);
        let r = Address { bytes };
        proof {
            lemma_uvarint_enc_len(namespace as nat);
            assert(r@ =~= seq![4u8] + uvarint_enc(namespace as nat) + sv);
            assert(uvarint_enc(namespace as nat) + sv =~= r@.skip(1));
            assert(valid_address_bytes(r@));
        }
        Ok(r)
    }

    /// The well-known system actor that installs bytecode (identifier 1).
    pub fn init_actor() -> (r: Address)
        ensures
            r@ == seq![0u8, 1u8],
            r.wf(),
    {
        let r = Address::new_id(1);
        proof {
            assert(uvarint_enc(1nat) =~= seq![1u8]);
            assert(r@ =~= seq![0u8, 1u8]);
        }
        r
    }

    /// The well-known storage power actor that creates miners (identifier 4).
    pub fn storage_power_actor() -> (r: Address)
        ensures
            r@ == seq![0u8, 4u8],
            r.wf(),
    {
        let r = Address::new_id(4);
        proof {
            assert(uvarint_enc(4nat) =~= seq![4u8]);
            assert(r@ =~= seq![0u8, 4u8]);
        }
        r
    }

    /// Decide well-formedness at run time: exactly the addresses whose
    /// byte content is a canonical encoding pass, so a caller outside
    /// this crate can test an address it did not build through the
    /// constructors here before handing it to the pipeline.
    pub fn check_wf(&self) -> (r: bool)
        ensures
            r == self.wf(),
    {
        let n = self.bytes.len();
        if n < 2 {
            return false;
        }
        let p = self.bytes[0];
        if p == 1 || p == 2 {
            return n == 21;
        }
        if p == 3 {
            return n == 49;
        }
        if p == 4 {
            return self.check_delegated_tail();
        }
        if p != 0 {
            return false;
        }
        if n > 11 {
            proof {
                if self.wf() {
                    lemma_wf_tail_shape(self@);
                    assert(false);
                }
            }
            return false;
        }
        let mut i: usize = 1;
        while i < n - 1
            invariant
                self@.len() == n,
                2 <= n <= 11,
                1 <= i <= n - 1,
                self@[0] == 0,
                forall|j: int| 1 <= j < i ==> self@[j] >= 128,
            decreases n - i,
        {
            if self.bytes[i] < 128 {
                proof {
                    if self.wf() {
                        lemma_wf_tail_shape(self@);
                        assert(self@.skip(1)[i - 1] == self@[i as int]);
                        assert(false);
                    }
                }
                return false;
            }
            i += 1;
        }
        let last = self.bytes[n - 1];
        let ok = last < 128 && (n == 2 || last != 0) && (n < 11 || last == 1);
        proof {
            let ghost tail = self@.skip(1);
            assert(tail[tail.len() - 1] == self@[n - 1]);
            if ok {
                assert forall|j: int| 0 <= j < tail.len() - 1 implies tail[j] >= 128 by {
                    assert(tail[j] == self@[j + 1]);
                }
                assert(uvarint_shape(tail));
                lemma_shape_gives_enc(tail);
                assert(uvarint_enc(uvarint_val(tail)) == tail);
                assert(valid_address_bytes(self@));
            } else {
                if self.wf() {
                    lemma_wf_tail_shape(self@);
                    assert(false);
                }
            }
        }
        ok
    }

    /// Decide whether a delegated address's tail is a namespace varint
    /// followed by a subaddress of at most 54 bytes.  The varint runs to
    /// the first byte without its high bit, so the split is determined.
    fn check_delegated_tail(&self) -> (r: bool)
        requires
            self@.len() >= 2,
            self@[0] == 4,
        ensures
            r == self.wf(),
    {
        let n = self.bytes.len();
        let mut i: usize = 1;
        while i < n && self.bytes[i] >= 128
            invariant
                n == self@.len(),
                2 <= n,
                1 <= i <= n,
                forall|j: int| 1 <= j < i ==> self@[j] >= 128,
            decreases n - i,
        {
            i += 1;
        }
        if i == n {
            // the namespace varint never terminates
            proof {
                if self.wf() {
                    let tail = self@.skip(1);
                    let (m, sub) = choose|m: nat, sub: Seq<u8>|
                        m <= u64::MAX && sub.len() <= 54 && #[trigger] (uvarint_enc(m) + sub)
                            == tail;
                    lemma_enc_has_shape(m);
                    let e = uvarint_enc(m);
                    let ll = e.len() as int;
                    assert(tail.len() == e.len() + sub.len());
                    assert(1 <= ll && ll <= tail.len());
                    assert((e + sub)[ll - 1] == e[ll - 1]);
                    assert(tail[ll - 1] == self@[ll]);
                    assert(e[ll - 1] < 128);
                    assert(self@[ll] >= 128);
                    assert(false);
                }
            }
            return false;
        }
        let last = self.bytes[i];
        let ok = i <= 10 && (i == 1 || last != 0) && (i < 10 || last == 1) && n - 1 - i <= 54;
        proof {
            let ghost tail = self@.skip(1);
            if ok {
                let ghost vpart = tail.take(i as int);
                let ghost sub = tail.skip(i as int);
                assert forall|j: int| 0 <= j < vpart.len() - 1 implies vpart[j] >= 128 by {
                    assert(vpart[j] == self@[j + 1]);
                }
                assert(vpart[vpart.len() - 1] == self@[i as int]);
                assert(uvarint_shape(vpart));
                lemma_shape_gives_enc(vpart);
                assert(vpart + sub =~= tail);
                assert(uvarint_enc(uvarint_val(vpart)) + sub == tail);
                assert(sub.len() == n - 1 - i);
                assert(valid_address_bytes(self@));
            } else {
                if self.wf() {
                    let (m, sub) = choose|m: nat, sub: Seq<u8>|
                        m <= u64::MAX && sub.len() <= 54 && #[trigger] (uvarint_enc(m) + sub)
                            == tail;
                    lemma_enc_has_shape(m);
                    let e = uvarint_enc(m);
                    let ll = e.len() as int;
                    assert(tail.len() == e.len() + sub.len());
                    assert(1 <= ll && ll <= tail.len());
                    // the scan stopped exactly at the varint's last byte
                    assert forall|j: int| 0 <= j < ll implies tail[j] == e[j] by {
                        assert((e + sub)[j] == e[j]);
                    }
                    if i < ll {
                        assert(self@[i as int] == tail[i - 1]);
                        assert(e[i - 1] >= 128);
                        assert(false);
                    }
                    if i > ll {
                        assert(self@[ll] == tail[ll - 1]);
                        assert(e[ll - 1] < 128);
                        assert(self@[ll] >= 128);
                        assert(false);
                    }
                    assert(i == ll);
                    assert(self@[i as int] == tail[i - 1]);
                    assert(self@[i as int] == e[ll - 1]);
                    assert(sub.len() == tail.len() - ll);
                    assert(ok);
                    assert(false);
                }
            }
        }
        ok
    }

    /// A fresh address with the same byte content.
    pub fn duplicate(&self) -> (r: Address)
        ensures
            r@ == self@,
    {
        let mut bytes: Vec<u8> = Vec::new();
        let mut i: usize = 0;
        while i < self.bytes.len()
            invariant
                i <= self.bytes@.len(),
                bytes@ == self.bytes@.take(i as int),
            decreases self.bytes@.len() - i,
        {
            bytes.push(self.bytes[i]);
            proof {
                assert(self.bytes@.take(i + 1 as int) =~= self.bytes@.take(i as int).push(
                    self.bytes@[i as int],
                ));
            }
            i += 1;
        }
        proof {
            assert(self.bytes@.take(self.bytes@.len() as int) =~= self.bytes@);
        }
        Address { bytes }
    }

    /// Byte-content equality, the address's notion of identity.
    pub fn same(&self, other: &Address) -> (r: bool)
        ensures
            r == (self@ == other@),
    {
        if self.bytes.len() != other.bytes.len() {
            return false;
        }
        let mut i: usize = 0;
        while i < self.bytes.len()
            invariant
                i <= self.bytes@.len(),
                self.bytes@.len() == other.bytes@.len(),
                forall|j: int| 0 <= j < i ==> self.bytes@[j] == other.bytes@[j],
            decreases self.bytes@.len() - i,
        {
            if self.bytes[i] != other.bytes[i] {
                return false;
            }
            i += 1;
        }
        proof {
            assert(self@ =~= other@);
        }
        true
    }
}

/// The value an unsigned LEB128 byte sequence denotes: seven value bits
/// per byte, least significant group first.
pub open spec fn uvarint_val(s: Seq<u8>) -> nat
    decreases s.len(),
{
    if s.len() == 0 {
        0
    } else {
        (s[0] % 128) as nat + 128 * uvarint_val(s.skip(1))
    }
}

/// The byte shape of the varint of an unsigned 64-bit value: one to ten
/// bytes, the high bit set on every byte but the last, no empty final
/// group beyond a single byte, and at ten bytes a final group of one bit.
pub open spec fn uvarint_shape(s: Seq<u8>) -> bool {
    &&& 1 <= s.len() <= 10
    &&& (forall|i: int| 0 <= i < s.len() - 1 ==> s[i] >= 128)
    &&& s[s.len() - 1] < 128
    &&& (s.len() >= 2 ==> s[s.len() - 1] != 0)
    &&& (s.len() == 10 ==> s[9] == 1)
}

/// 128 raised to the `k`-th power.
pub open spec fn pow128(k: nat) -> nat
    decreases k,
{
    if k == 0 {
        1
    } else {
        128 * pow128((k - 1) as nat)
    }
}

proof fn lemma_pow128_pos(k: nat)
    ensures
        pow128(k) >= 1,
    decreases k,
{
    if k > 0 {
        lemma_pow128_pos((k - 1) as nat);
    }
}

proof fn lemma_pow128_9()
    ensures
        pow128(9) == 0x8000000000000000,
{
    assert(pow128(0) == 1);
    assert(pow128(1) == 128);
    assert(pow128(2) == 0x4000);
    assert(pow128(3) == 0x200000);
    assert(pow128(4) == 0x10000000);
    assert(pow128(5) == 0x800000000);
    assert(pow128(6) == 0x40000000000);
    assert(pow128(7) == 0x2000000000000);
    assert(pow128(8) == 0x100000000000000);
    assert(pow128(9) == 0x8000000000000000);
}

proof fn lemma_uvarint_val_pos(s: Seq<u8>)
    requires
        s.len() >= 1,
        s[s.len() - 1] != 0,
        s[s.len() - 1] < 128,
    ensures
        uvarint_val(s) >= 1,
    decreases s.len(),
{
    if s.len() == 1 {
        assert(s.skip(1).len() == 0);
        assert(uvarint_val(s.skip(1)) == 0);
    } else {
        lemma_uvarint_val_pos(s.skip(1));
    }
}

proof fn lemma_uvarint_val_bound(s: Seq<u8>, k: nat)
    requires
        s.len() <= k,
    ensures
        uvarint_val(s) < pow128(k),
    decreases k,
{
    if s.len() == 0 {
        lemma_pow128_pos(k);
    } else {
        lemma_uvarint_val_bound(s.skip(1), (k - 1) as nat);
        assert(pow128(k) == 128 * pow128((k - 1) as nat));
    }
}

proof fn lemma_uvarint_val_top(s: Seq<u8>)
    requires
        s.len() >= 1,
        s[s.len() - 1] <= 1,
    ensures
        uvarint_val(s) < 2 * pow128((s.len() - 1) as nat),
    decreases s.len(),
{
    if s.len() == 1 {
        assert(s.skip(1).len() == 0);
        assert(uvarint_val(s.skip(1)) == 0);
    } else {
        lemma_uvarint_val_top(s.skip(1));
        assert(pow128((s.len() - 1) as nat) == 128 * pow128((s.len() - 2) as nat));
    }
}

/// A sequence of varint shape is the encoding of the value it denotes,
/// and that value fits an unsigned 64-bit identifier.
proof fn lemma_shape_gives_enc(s: Seq<u8>)
    requires
        uvarint_shape(s),
    ensures
        uvarint_enc(uvarint_val(s)) == s,
        uvarint_val(s) <= u64::MAX,
    decreases s.len(),
{
    lemma_pow128_9();
    if s.len() <= 9 {
        lemma_uvarint_val_bound(s, 9);
    } else {
        lemma_uvarint_val_top(s);
    }
    if s.len() == 1 {
        assert(s.skip(1).len() == 0);
        assert(uvarint_val(s.skip(1)) == 0);
        assert(uvarint_val(s) == s[0] as nat);
        assert(uvarint_enc(uvarint_val(s)) =~= s);
    } else {
        let rest = s.skip(1);
        assert forall|i: int| 0 <= i < rest.len() - 1 implies rest[i] >= 128 by {
            assert(rest[i] == s[i + 1]);
        }
        assert(rest[rest.len() - 1] == s[s.len() - 1]);
        assert(uvarint_shape(rest));
        lemma_shape_gives_enc(rest);
        lemma_uvarint_val_pos(rest);
        let a = (s[0] % 128) as nat;
        let b = uvarint_val(rest);
        let v = uvarint_val(s);
        assert(v == a + 128 * b);
        vstd::arithmetic::div_mod::lemma_fundamental_div_mod_converse(
            v as int,
            128,
            b as int,
            a as int,
        );
        assert(v % 128 == a);
        assert(v / 128 == b);
        assert(v >= 128);
        assert(((v % 128) + 128) as u8 == s[0]);
        assert(uvarint_enc(v) == seq![((v % 128) + 128) as u8] + uvarint_enc(v / 128));
        assert(uvarint_enc(v) =~= s);
    }
}

proof fn lemma_enc_len_le(m: nat, k: nat)
    requires
        m < pow128(k),
        k >= 1,
    ensures
        uvarint_enc(m).len() <= k,
    decreases k,
{
    if m >= 128 {
        assert(pow128(k) == 128 * pow128((k - 1) as nat));
        if k == 1 {
            assert(pow128(0nat) == 1);
            assert(false);
        }
        vstd::arithmetic::div_mod::lemma_fundamental_div_mod(m as int, 128);
        assert(m / 128 < pow128((k - 1) as nat));
        lemma_enc_len_le(m / 128, (k - 1) as nat);
    }
}

/// The last byte of a varint encoding is the value's highest group.
proof fn lemma_enc_last_byte(m: nat)
    ensures
        uvarint_enc(m)[uvarint_enc(m).len() - 1] as nat == m / pow128(
            (uvarint_enc(m).len() - 1) as nat,
        ),
    decreases m,
{
    if m < 128 {
        assert(pow128(0nat) == 1);
        vstd::arithmetic::div_mod::lemma_fundamental_div_mod_converse(m as int, 1, m as int, 0);
        assert(uvarint_enc(m) =~= seq![m as u8]);
        assert(uvarint_enc(m)[0] as nat == m / pow128(0nat));
    } else {
        lemma_enc_last_byte(m / 128);
        let rest = uvarint_enc(m / 128);
        lemma_uvarint_enc_len(m / 128);
        let k = rest.len() as int;
        let s = uvarint_enc(m);
        assert(s == seq![((m % 128) + 128) as u8] + rest);
        assert(s[s.len() - 1] == rest[k - 1]);
        lemma_pow128_pos((k - 1) as nat);
        vstd::arithmetic::div_mod::lemma_div_denominator(
            m as int,
            128,
            pow128((k - 1) as nat) as int,
        );
        assert(rest[k - 1] as nat == (m / 128) / pow128((k - 1) as nat));
        assert(((m as int) / 128) / (pow128((k - 1) as nat) as int) == (m as int) / (128 * (
        pow128((k - 1) as nat) as int)));
        assert(pow128(k as nat) == 128 * pow128((k - 1) as nat));
        assert(s.len() - 1 == k);
        assert(s[s.len() - 1] as nat == m / pow128(k as nat));
    }
}

/// The encoding of a 64-bit value has varint shape and denotes the value.
proof fn lemma_enc_has_shape(n: nat)
    requires
        n <= u64::MAX,
    ensures
        uvarint_shape(uvarint_enc(n)),
        uvarint_val(uvarint_enc(n)) == n,
    decreases n,
{
    let s = uvarint_enc(n);
    if n < 128 {
        assert(s =~= seq![n as u8]);
        assert(s.skip(1).len() == 0);
        assert(uvarint_val(s.skip(1)) == 0);
        assert(uvarint_val(s) == n);
    } else {
        lemma_enc_has_shape(n / 128);
        let rest = uvarint_enc(n / 128);
        assert(s == seq![((n % 128) + 128) as u8] + rest);
        lemma_uvarint_enc_len(n / 128);
        lemma_pow128_9();
        vstd::arithmetic::div_mod::lemma_fundamental_div_mod(n as int, 128);
        assert(n / 128 < pow128(9));
        lemma_enc_len_le(n / 128, 9);
        assert(2 <= s.len() <= 10);
        assert forall|i: int| 0 <= i < s.len() - 1 implies s[i] >= 128 by {
            if i > 0 {
                assert(s[i] == rest[i - 1]);
            }
        }
        assert(s[s.len() - 1] == rest[rest.len() - 1]);
        if rest.len() == 1 {
            if n / 128 >= 128 {
                lemma_uvarint_enc_len((n / 128) / 128);
                assert(false);
            }
            assert(rest =~= seq![(n / 128) as u8]);
            assert(n / 128 >= 1);
        }
        assert(s[s.len() - 1] != 0);
        if s.len() == 10 {
            lemma_enc_last_byte(n);
            assert(s[s.len() - 1] as nat == n / pow128(9));
            vstd::arithmetic::div_mod::lemma_fundamental_div_mod(n as int, 0x8000000000000000);
            assert(n / pow128(9) <= 1);
        }
        assert(s.skip(1) =~= rest);
        assert(uvarint_val(s) == (s[0] % 128) as nat + 128 * uvarint_val(rest));
        assert(uvarint_val(s) == n);
    }
}

/// A well-formed identifier address carries a varint-shaped tail.
proof fn lemma_wf_tail_shape(s: Seq<u8>)
    requires
        valid_address_bytes(s),
        s.len() >= 1,
        s[0] == 0,
    ensures
        uvarint_shape(s.skip(1)),
{
    let m = choose|m: nat| m <= u64::MAX && #[trigger] uvarint_enc(m) == s.skip(1);
    lemma_enc_has_shape(m);
}

/// Encode an unsigned 64-bit value as its LEB128 byte sequence.
pub fn uvarint_encode(n: u64) -> (r: Vec<u8>)
    ensures
        r@ == uvarint_enc(n as nat),
{
    let mut rest: u64 = n;
    let mut out: Vec<u8> = Vec::new();
    while rest >= 128
        invariant
            out@ + uvarint_enc(rest as nat) == uvarint_enc(n as nat),
        decreases rest,
    {
        let byte: u8 = ((rest % 128) + 128) as u8;
        proof {
            assert(uvarint_enc(rest as nat) == seq![byte] + uvarint_enc((rest / 128) as nat));
            assert(out@ + uvarint_enc(rest as nat) =~= (out@ + seq![byte]) + uvarint_enc(
                (rest / 128) as nat,
            ));
        }
        out.push(byte);
        rest = rest / 128;
    }
    proof {
        assert(uvarint_enc(rest as nat) == seq![rest as u8]);
        assert(out@ + uvarint_enc(rest as nat) =~= out@.push(rest as u8));
    }
    out.push(rest as u8);
    out
}

} // verus!
