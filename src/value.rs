//! Conversion between a register's raw bytes and the values they stand for.

use vstd::prelude::*;

verus! {

/// A value that is stored in a register as a fixed number of raw bytes.
pub trait RegisterValue: Sized {
    /// How many raw bytes the value takes.
    spec fn raw_len() -> nat;

    /// The raw bytes of a value.
    spec fn encode(&self) -> Seq<u8>;

    /// The value that raw bytes stand for.
    spec fn decode(raw: Seq<u8>) -> Self;

    proof fn lemma_encode_len(&self)
        ensures
            self.encode().len() == Self::raw_len(),
    ;

    fn raw_length() -> (n: usize)
        ensures
            n as nat == Self::raw_len(),
    ;

    fn to_raw(&self) -> (raw: Vec<u8>)
        ensures
            raw@ == self.encode(),
            raw@.len() == Self::raw_len(),
    ;

    fn from_raw(raw: &[u8]) -> (v: Self)
        requires
            raw@.len() == Self::raw_len(),
        ensures
            v == Self::decode(raw@),
    ;
}

/// One byte, as it is.
impl RegisterValue for u8 {
    open spec fn raw_len() -> nat {
        1
    }

    open spec fn encode(&self) -> Seq<u8> {
        seq![*self]
    }

    open spec fn decode(raw: Seq<u8>) -> u8 {
        raw[0]
    }

    proof fn lemma_encode_len(&self) {
    }

    fn raw_length() -> (n: usize) {
        1
    }

    fn to_raw(&self) -> (raw: Vec<u8>) {
        let raw = vec![*self];
        proof {
            assert(raw@ =~= self.encode());
        }
        raw
    }

    fn from_raw(raw: &[u8]) -> (v: u8) {
        raw[0]
    }
}

/// Two bytes, most significant first.
impl RegisterValue for u16 {
    open spec fn raw_len() -> nat {
        2
    }

    open spec fn encode(&self) -> Seq<u8> {
        seq![(*self >> 8u16) as u8, *self as u8]
    }

    open spec fn decode(raw: Seq<u8>) -> u16 {
        (raw[0] as u16) << 8u16 | raw[1] as u16
    }

    proof fn lemma_encode_len(&self) {
    }

    fn raw_length() -> (n: usize) {
        2
    }

    fn to_raw(&self) -> (raw: Vec<u8>) {
        let v = *self;
        let raw = vec![(v >> 8u16) as u8, v as u8];
        proof {
            assert(raw@ =~= self.encode());
        }
        raw
    }

    fn from_raw(raw: &[u8]) -> (v: u16) {
        (raw[0] as u16) << 8u16 | raw[1] as u16
    }
}

/// Four bytes, most significant first.
impl RegisterValue for u32 {
    open spec fn raw_len() -> nat {
        4
    }

    open spec fn encode(&self) -> Seq<u8> {
        seq![(*self >> 24u32) as u8, (*self >> 16u32) as u8, (*self >> 8u32) as u8, *self as u8]
    }

    open spec fn decode(raw: Seq<u8>) -> u32 {
        (raw[0] as u32) << 24u32 | (raw[1] as u32) << 16u32 | (raw[2] as u32) << 8u32
            | raw[3] as u32
    }

    proof fn lemma_encode_len(&self) {
    }

    fn raw_length() -> (n: usize) {
        4
    }

    fn to_raw(&self) -> (raw: Vec<u8>) {
        let v = *self;
        let raw = vec![(v >> 24u32) as u8, (v >> 16u32) as u8, (v >> 8u32) as u8, v as u8];
        proof {
            assert(raw@ =~= self.encode());
        }
        raw
    }

    fn from_raw(raw: &[u8]) -> (v: u32) {
        (raw[0] as u32) << 24u32 | (raw[1] as u32) << 16u32 | (raw[2] as u32) << 8u32
            | raw[3] as u32
    }
}

/// Eight bytes, most significant first.
impl RegisterValue for u64 {
    open spec fn raw_len() -> nat {
        8
    }

    open spec fn encode(&self) -> Seq<u8> {
        seq![
            (*self >> 56u64) as u8,
            (*self >> 48u64) as u8,
            (*self >> 40u64) as u8,
            (*self >> 32u64) as u8,
            (*self >> 24u64) as u8,
            (*self >> 16u64) as u8,
            (*self >> 8u64) as u8,
            *self as u8,
        ]
    }

    open spec fn decode(raw: Seq<u8>) -> u64 {
        (raw[0] as u64) << 56u64 | (raw[1] as u64) << 48u64 | (raw[2] as u64) << 40u64 | (
        raw[3] as u64) << 32u64 | (raw[4] as u64) << 24u64 | (raw[5] as u64) << 16u64 | (
        raw[6] as u64) << 8u64 | raw[7] as u64
    }

    proof fn lemma_encode_len(&self) {
    }

    fn raw_length() -> (n: usize) {
        8
    }

    fn to_raw(&self) -> (raw: Vec<u8>) {
        let v = *self;
        let raw = vec![
            (v >> 56u64) as u8,
            (v >> 48u64) as u8,
            (v >> 40u64) as u8,
            (v >> 32u64) as u8,
            (v >> 24u64) as u8,
            (v >> 16u64) as u8,
            (v >> 8u64) as u8,
            v as u8,
        ];
        proof {
            assert(raw@ =~= self.encode());
        }
        raw
    }

    fn from_raw(raw: &[u8]) -> (v: u64) {
        (raw[0] as u64) << 56u64 | (raw[1] as u64) << 48u64 | (raw[2] as u64) << 40u64 | (
        raw[3] as u64) << 32u64 | (raw[4] as u64) << 24u64 | (raw[5] as u64) << 16u64 | (
        raw[6] as u64) << 8u64 | raw[7] as u64
    }
}

/// Raw bytes taken as they are: a register read or written without conversion.
impl<const N: usize> RegisterValue for [u8; N] {
    open spec fn raw_len() -> nat {
        N as nat
    }

    open spec fn encode(&self) -> Seq<u8> {
        self@
    }

    open spec fn decode(raw: Seq<u8>) -> [u8; N] {
        choose|a: [u8; N]| a@ == raw
    }

    proof fn lemma_encode_len(&self) {
    }

    fn raw_length() -> (n: usize) {
        N
    }

    fn to_raw(&self) -> (raw: Vec<u8>) {
        let mut raw: Vec<u8> = Vec::new();
        let mut i: usize = 0;
        while i < N
            invariant
                i <= N,
                self@.len() == N,
                raw@ == self@.subrange(0, i as int),
            decreases N - i,
        {
            raw.push(self[i]);
            i = i + 1;
            proof {
                assert(raw@ =~= self@.subrange(0, i as int));
            }
        }
        proof {
            assert(raw@ =~= self@);
        }
        raw
    }

    fn from_raw(raw: &[u8]) -> (v: [u8; N]) {
        let mut a: [u8; N] = [0u8; N];
        let mut i: usize = 0;
        while i < N
            invariant
                i <= N,
                raw@.len() == N,
                a@.len() == N,
                forall|j: int| 0 <= j < i ==> a@[j] == raw@[j],
            decreases N - i,
        {
            a[i] = raw[i];
            i = i + 1;
        }
        proof {
            assert(a@ =~= raw@);
            let b = Self::decode(raw@);
            assert(b@ == raw@);
            assert(a =~= b);
        }
        a
    }
}

} // verus!
