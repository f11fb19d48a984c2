//! How a bond is laid out in flash: the peer address as the key, and the
//! long term key with the security level as the value.

use vstd::prelude::*;

verus! {

/// Bytes of a stored peer address.
pub const ADDR_LEN: usize = 6;
/// Bytes of a stored long term key.
pub const LTK_LEN: usize = 16;
/// Bytes of a stored bond value: the key and one byte of security level.
pub const BOND_VALUE_LEN: usize = 17;

/// First flash address of the bond area.
pub const BOND_START: u32 = 0x7f0000;
/// End (exclusive) of the bond area.
pub const BOND_END: u32 = 0x800000;

/// Why bytes could not be written or read.
#[derive(Debug, Clone, Copy, PartialEq, Eq, Structural)]
pub enum SerializationError {
    BufferTooSmall,
    InvalidData,
}

/// How well a link is protected.
#[derive(Debug, Clone, Copy, PartialEq, Eq, Structural)]
pub enum SecurityLevel {
    NoEncryption,
    Encrypted,
    EncryptedAuthenticated,
}

/// A peer's Bluetooth device address, least significant byte first.
#[derive(Debug, Clone, Copy, PartialEq, Eq)]
pub struct StoredAddr(pub [u8; 6]);

/// What is kept of a bond besides the address.
#[derive(Debug, Clone, Copy, PartialEq, Eq, Structural)]
pub struct StoredBondInformation {
    pub ltk: u128,
    pub security_level: SecurityLevel,
}

/// The flash area that holds bonds.
pub fn storage_range() -> (r: core::ops::Range<u32>)
    ensures
        r.start == BOND_START,
        r.end == BOND_END,
{
    BOND_START..BOND_END
}

pub open spec fn pow256(n: nat) -> nat
    decreases n,
{
    if n == 0 {
        1
    } else {
        256 * pow256((n - 1) as nat)
    }
}

/// The `n` low bytes of `v`, least significant first.
pub open spec fn le_bytes(v: nat, n: nat) -> Seq<u8>
    decreases n,
{
    if n == 0 {
        Seq::empty()
    } else {
        seq![(v % 256) as u8] + le_bytes(v / 256, (n - 1) as nat)
    }
}

/// The number whose bytes, least significant first, are `s`.
pub open spec fn le_value(s: Seq<u8>) -> nat
    decreases s.len(),
{
    if s.len() == 0 {
        0
    } else {
        s[0] as nat + 256 * le_value(s.drop_first())
    }
}

pub open spec fn level_code(level: SecurityLevel) -> u8 {
    match level {
        SecurityLevel::NoEncryption => 0,
        SecurityLevel::Encrypted => 1,
        SecurityLevel::EncryptedAuthenticated => 2,
    }
}

pub open spec fn level_of_code(code: u8) -> Option<SecurityLevel> {
    if code == 0 {
        Option::Some(SecurityLevel::NoEncryption)
    } else if code == 1 {
        Option::Some(SecurityLevel::Encrypted)
    } else if code == 2 {
        Option::Some(SecurityLevel::EncryptedAuthenticated)
    } else {
        Option::None
    }
}

impl StoredBondInformation {
    /// The stored bytes of a bond value.
    pub open spec fn encoding(self) -> Seq<u8> {
        le_bytes(self.ltk as nat, LTK_LEN as nat) + seq![level_code(self.security_level)]
    }
}

/// The bond value that bytes hold, if their level byte is known.
pub open spec fn decode_bond(s: Seq<u8>) -> Option<StoredBondInformation> {
    match level_of_code(s[16]) {
        Option::Some(level) => Option::Some(
            StoredBondInformation { ltk: le_value(s.take(16)) as u128, security_level: level },
        ),
        Option::None => Option::None,
    }
}

pub proof fn lemma_pow256_16()
    ensures
        pow256(16) == 0x1_0000_0000_0000_0000_0000_0000_0000_0000,
        pow256(15) == 0x100_0000_0000_0000_0000_0000_0000_0000,
{
    reveal_with_fuel(pow256, 17);
}

proof fn lemma_le_value_bound(s: Seq<u8>)
    ensures
        le_value(s) < pow256(s.len()),
    decreases s.len(),
{
    if s.len() > 0 {
        lemma_le_value_bound(s.drop_first());
    }
}

/// Reading back the bytes of a number gives the number.
pub proof fn lemma_le_value_of_bytes(v: nat, n: nat)
    requires
        v < pow256(n),
    ensures
        le_value(le_bytes(v, n)) == v,
        le_bytes(v, n).len() == n,
    decreases n,
{
    if n > 0 {
        lemma_le_value_of_bytes(v / 256, (n - 1) as nat);
        let s = le_bytes(v, n);
        assert(s.drop_first() =~= le_bytes(v / 256, (n - 1) as nat));
    }
}

/// Writing out the number that bytes hold gives the bytes.
pub proof fn lemma_le_bytes_of_value(s: Seq<u8>)
    ensures
        le_bytes(le_value(s), s.len()) == s,
    decreases s.len(),
{
    if s.len() > 0 {
        let rest = s.drop_first();
        lemma_le_bytes_of_value(rest);
        let v = le_value(s);
        assert(v % 256 == s[0] as nat);
        assert(v / 256 == le_value(rest));
        assert(le_bytes(v, s.len()) =~= seq![s[0]] + rest);
        assert(seq![s[0]] + rest =~= s);
    }
}

impl StoredAddr {
    /// Writes the address into the first six bytes of `buffer`.
    pub fn serialize_into(&self, buffer: &mut [u8]) -> (r: Result<usize, SerializationError>)
        ensures
            old(buffer)@.len() < ADDR_LEN ==> r == Err::<usize, SerializationError>(
                SerializationError::BufferTooSmall,
            ) && final(buffer)@ == old(buffer)@,
            old(buffer)@.len() >= ADDR_LEN ==> r == Ok::<usize, SerializationError>(ADDR_LEN)
                && final(buffer)@ == self.0@ + old(buffer)@.skip(ADDR_LEN as int),
    {
        if buffer.len() < ADDR_LEN {
            return Err(SerializationError::BufferTooSmall);
        }
        let mut i: usize = 0;
        while i < ADDR_LEN
            invariant
                0 <= i <= ADDR_LEN,
                buffer@.len() == old(buffer)@.len(),
                old(buffer)@.len() >= ADDR_LEN,
                forall|j: int| 0 <= j < i ==> buffer@[j] == self.0@[j],
                forall|j: int| i <= j < buffer@.len() ==> buffer@[j] == old(buffer)@[j],
            decreases ADDR_LEN - i,
        {
            buffer[i] = self.0[i];
            i = i + 1;
        }
        assert(buffer@ =~= self.0@ + old(buffer)@.skip(ADDR_LEN as int));
        Ok(ADDR_LEN)
    }

    /// Reads an address from the first six bytes of `buffer`.
    pub fn deserialize_from(buffer: &[u8]) -> (r: Result<(Self, usize), SerializationError>)
        ensures
            buffer@.len() < ADDR_LEN ==> r == Err::<(Self, usize), SerializationError>(
                SerializationError::BufferTooSmall,
            ),
            buffer@.len() >= ADDR_LEN ==> (r matches Ok((addr, used)) && used == ADDR_LEN
                && addr.0@ == buffer@.take(ADDR_LEN as int)),
    {
        if buffer.len() < ADDR_LEN {
            return Err(SerializationError::BufferTooSmall);
        }
        let raw = [buffer[0], buffer[1], buffer[2], buffer[3], buffer[4], buffer[5]];
        assert(raw@ =~= buffer@.take(ADDR_LEN as int));
        Ok((StoredAddr(raw), ADDR_LEN))
    }
}

impl StoredBondInformation {
    /// Writes the key, least significant byte first, then the security
    /// level code, into the first seventeen bytes of `buffer`.
    pub fn serialize_into(&self, buffer: &mut [u8]) -> (r: Result<usize, SerializationError>)
        ensures
            old(buffer)@.len() < BOND_VALUE_LEN ==> r == Err::<usize, SerializationError>(
                SerializationError::BufferTooSmall,
            ) && final(buffer)@ == old(buffer)@,
            old(buffer)@.len() >= BOND_VALUE_LEN ==> r == Ok::<usize, SerializationError>(
                BOND_VALUE_LEN,
            ) && final(buffer)@ == self.encoding() + old(buffer)@.skip(BOND_VALUE_LEN as int),
    {
        if buffer.len() < BOND_VALUE_LEN {
            return Err(SerializationError::BufferTooSmall);
        }
        let mut rest: u128 = self.ltk;
        let mut i: usize = 0;
        while i < LTK_LEN
            invariant
                0 <= i <= LTK_LEN,
                buffer@.len() == old(buffer)@.len(),
                old(buffer)@.len() >= BOND_VALUE_LEN,
                buffer@.subrange(0, i as int) + le_bytes(rest as nat, (LTK_LEN - i) as nat)
                    == le_bytes(self.ltk as nat, LTK_LEN as nat),
                forall|j: int| i <= j < buffer@.len() ==> buffer@[j] == old(buffer)@[j],
            decreases LTK_LEN - i,
        {
            let ghost before = buffer@;
            let byte = (rest % 256) as u8;
            buffer[i] = byte;
            proof {
                let k = (LTK_LEN - i) as nat;
                assert(le_bytes(rest as nat, k) == seq![byte] + le_bytes(
                    (rest / 256) as nat,
                    (k - 1) as nat,
                ));
                assert(buffer@.subrange(0, i + 1) =~= before.subrange(0, i as int) + seq![byte]);
                assert(buffer@.subrange(0, i + 1) + le_bytes((rest / 256) as nat, (k - 1) as nat)
                    =~= before.subrange(0, i as int) + le_bytes(rest as nat, k));
            }
            rest = rest / 256;
            i = i + 1;
        }
        buffer[LTK_LEN] = match self.security_level {
            SecurityLevel::NoEncryption => 0,
            SecurityLevel::Encrypted => 1,
            SecurityLevel::EncryptedAuthenticated => 2,
        };
        proof {
            reveal_with_fuel(le_bytes, 1);
            assert(le_bytes(rest as nat, 0) =~= Seq::<u8>::empty());
            assert(buffer@ =~= self.encoding() + old(buffer)@.skip(BOND_VALUE_LEN as int));
        }
        Ok(BOND_VALUE_LEN)
    }

    /// Reads a bond value from the first seventeen bytes of `buffer`.
    pub fn deserialize_from(buffer: &[u8]) -> (r: Result<Self, SerializationError>)
        ensures
            buffer@.len() < BOND_VALUE_LEN ==> r == Err::<Self, SerializationError>(
                SerializationError::BufferTooSmall,
            ),
            buffer@.len() >= BOND_VALUE_LEN && decode_bond(buffer@) is None ==> r == Err::<
                Self,
                SerializationError,
            >(SerializationError::InvalidData),
            buffer@.len() >= BOND_VALUE_LEN && decode_bond(buffer@) is Some ==> r == Ok::<
                Self,
                SerializationError,
            >(decode_bond(buffer@).unwrap()),
    {
        if buffer.len() < BOND_VALUE_LEN {
            return Err(SerializationError::BufferTooSmall);
        }
        let ghost key = buffer@.take(16);
        let mut ltk: u128 = 0;
        let mut i: usize = LTK_LEN;
        proof {
            lemma_pow256_16();
            assert(key.subrange(16, 16) =~= Seq::<u8>::empty());
        }
        while i > 0
            invariant
                0 <= i <= LTK_LEN,
                buffer@.len() >= BOND_VALUE_LEN,
                key == buffer@.take(16),
                ltk as nat == le_value(key.subrange(i as int, 16)),
                pow256(15) == 0x100_0000_0000_0000_0000_0000_0000_0000,
            decreases i,
        {
            let ghost tail = key.subrange(i as int, 16);
            proof {
                lemma_le_value_bound(tail);
                if i < 16 {
                    assert(pow256(tail.len()) <= pow256(15)) by {
                        lemma_pow256_mono(tail.len(), 15);
                    }
                }
            }
            ltk = ltk * 256 + buffer[i - 1] as u128;
            proof {
                let longer = key.subrange(i - 1, 16);
                assert(longer.drop_first() =~= tail);
            }
            i = i - 1;
        }
        proof {
            assert(key.subrange(0, 16) =~= key);
        }
        let security_level = match buffer[LTK_LEN] {
            0 => SecurityLevel::NoEncryption,
            1 => SecurityLevel::Encrypted,
            2 => SecurityLevel::EncryptedAuthenticated,
            _ => {
                return Err(SerializationError::InvalidData);
            },
        };
        Ok(StoredBondInformation { ltk, security_level })
    }
}

proof fn lemma_pow256_mono(a: nat, b: nat)
    requires
        a <= b,
    ensures
        pow256(a) <= pow256(b),
    decreases b,
{
    if a < b {
        lemma_pow256_mono(a, (b - 1) as nat);
    }
}


/// Reading back a stored bond value gives the bond that was stored.
pub proof fn lemma_bond_roundtrip(bond: StoredBondInformation)
    ensures
        bond.encoding().len() == BOND_VALUE_LEN,
        decode_bond(bond.encoding()) == Option::Some(bond),
{
    lemma_pow256_16();
    lemma_le_value_of_bytes(bond.ltk as nat, 16);
    let e = bond.encoding();
    assert(e.take(16) =~= le_bytes(bond.ltk as nat, 16));
    assert(e[16] == level_code(bond.security_level));
}

/// Bytes that read as a bond value are exactly that value's stored bytes.
pub proof fn lemma_bond_bytes_roundtrip(s: Seq<u8>)
    requires
        s.len() >= BOND_VALUE_LEN,
        decode_bond(s) is Some,
    ensures
        decode_bond(s).unwrap().encoding() == s.take(BOND_VALUE_LEN as int),
{
    let key = s.take(16);
    lemma_pow256_16();
    lemma_le_value_bound(key);
    lemma_le_bytes_of_value(key);
    let bond = decode_bond(s).unwrap();
    assert(bond.ltk as nat == le_value(key));
    assert(bond.encoding() =~= s.take(BOND_VALUE_LEN as int));
}

/// An address written by `serialize_into` is read back by
/// `deserialize_from`, whatever followed it in the buffer.
pub proof fn lemma_addr_roundtrip(addr: StoredAddr, rest: Seq<u8>)
    ensures
        (addr.0@ + rest).len() >= ADDR_LEN,
        (addr.0@ + rest).take(ADDR_LEN as int) == addr.0@,
{
    assert((addr.0@ + rest).take(ADDR_LEN as int) =~= addr.0@);
}

} // verus!
