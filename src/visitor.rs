use vstd::prelude::*;

use core::marker::PhantomData;

use crate::error::VisitError;
use crate::kinds::{
    conversion_spec, description_spec, fits_event, fits_target, is_integer_target,
    lemma_integer_rules, EventKind, TargetKind,
};

verus! {

/// A type that a coercion can produce.
pub trait Target: Sized {
    /// The kind of this type in the conversion matrix.
    spec fn kind() -> TargetKind;

    fn target_kind() -> (r: TargetKind)
        ensures
            r == Self::kind(),
    ;
}

/// A fixed-width integer type that a coercion can produce.
pub trait IntTarget: Target {
    /// The value as a mathematical integer.
    spec fn value(&self) -> int;

    /// The kind of an integer type is an integer target kind.
    proof fn lemma_integer_kind()
        ensures
            is_integer_target(Self::kind()),
    ;

    /// The value `v` in this type, where it fits.
    fn from_unsigned(v: u128) -> (r: Option<Self>)
        ensures
            r is Some <==> fits_target(Self::kind(), v as int),
            r matches Some(x) ==> x.value() == v as int,
    ;

    /// The value `v` in this type, where it fits.
    fn from_signed(v: i128) -> (r: Option<Self>)
        ensures
            r is Some <==> fits_target(Self::kind(), v as int),
            r matches Some(x) ==> x.value() == v as int,
    ;
}

impl Target for u8 {
    open spec fn kind() -> TargetKind {
        TargetKind::U8
    }

    fn target_kind() -> (r: TargetKind) {
        TargetKind::U8
    }
}

impl IntTarget for u8 {
    open spec fn value(&self) -> int {
        *self as int
    }

    proof fn lemma_integer_kind() {
    }

    fn from_unsigned(v: u128) -> (r: Option<u8>) {
        if v <= 255 {
            Some(v as u8)
        } else {
            None
        }
    }

    fn from_signed(v: i128) -> (r: Option<u8>) {
        if 0 <= v && v <= 255 {
            Some(v as u8)
        } else {
            None
        }
    }
}

impl Target for i8 {
    open spec fn kind() -> TargetKind {
        TargetKind::I8
    }

    fn target_kind() -> (r: TargetKind) {
        TargetKind::I8
    }
}

impl IntTarget for i8 {
    open spec fn value(&self) -> int {
        *self as int
    }

    proof fn lemma_integer_kind() {
    }

    fn from_unsigned(v: u128) -> (r: Option<i8>) {
        if v <= 127 {
            Some(v as i8)
        } else {
            None
        }
    }

    fn from_signed(v: i128) -> (r: Option<i8>) {
        if -128 <= v && v <= 127 {
            Some(v as i8)
        } else {
            None
        }
    }
}

impl Target for u16 {
    open spec fn kind() -> TargetKind {
        TargetKind::U16
    }

    fn target_kind() -> (r: TargetKind) {
        TargetKind::U16
    }
}

impl IntTarget for u16 {
    open spec fn value(&self) -> int {
        *self as int
    }

    proof fn lemma_integer_kind() {
    }

    fn from_unsigned(v: u128) -> (r: Option<u16>) {
        if v <= 65535 {
            Some(v as u16)
        } else {
            None
        }
    }

    fn from_signed(v: i128) -> (r: Option<u16>) {
        if 0 <= v && v <= 65535 {
            Some(v as u16)
        } else {
            None
        }
    }
}

impl Target for i16 {
    open spec fn kind() -> TargetKind {
        TargetKind::I16
    }

    fn target_kind() -> (r: TargetKind) {
        TargetKind::I16
    }
}

impl IntTarget for i16 {
    open spec fn value(&self) -> int {
        *self as int
    }

    proof fn lemma_integer_kind() {
    }

    fn from_unsigned(v: u128) -> (r: Option<i16>) {
        if v <= 32767 {
            Some(v as i16)
        } else {
            None
        }
    }

    fn from_signed(v: i128) -> (r: Option<i16>) {
        if -32768 <= v && v <= 32767 {
            Some(v as i16)
        } else {
            None
        }
    }
}

impl Target for u32 {
    open spec fn kind() -> TargetKind {
        TargetKind::U32
    }

    fn target_kind() -> (r: TargetKind) {
        TargetKind::U32
    }
}

impl IntTarget for u32 {
    open spec fn value(&self) -> int {
        *self as int
    }

    proof fn lemma_integer_kind() {
    }

    fn from_unsigned(v: u128) -> (r: Option<u32>) {
        if v <= 4294967295 {
            Some(v as u32)
        } else {
            None
        }
    }

    fn from_signed(v: i128) -> (r: Option<u32>) {
        if 0 <= v && v <= 4294967295 {
            Some(v as u32)
        } else {
            None
        }
    }
}

impl Target for i32 {
    open spec fn kind() -> TargetKind {
        TargetKind::I32
    }

    fn target_kind() -> (r: TargetKind) {
        TargetKind::I32
    }
}

impl IntTarget for i32 {
    open spec fn value(&self) -> int {
        *self as int
    }

    proof fn lemma_integer_kind() {
    }

    fn from_unsigned(v: u128) -> (r: Option<i32>) {
        if v <= 2147483647 {
            Some(v as i32)
        } else {
            None
        }
    }

    fn from_signed(v: i128) -> (r: Option<i32>) {
        if -2147483648 <= v && v <= 2147483647 {
            Some(v as i32)
        } else {
            None
        }
    }
}

impl Target for Vec<u8> {
    open spec fn kind() -> TargetKind {
        TargetKind::Bytes
    }

    fn target_kind() -> (r: TargetKind) {
        TargetKind::Bytes
    }
}

impl Target for String {
    open spec fn kind() -> TargetKind {
        TargetKind::Str
    }

    fn target_kind() -> (r: TargetKind) {
        TargetKind::Str
    }
}

/// Coerces one primitive event into a value of `T`.
///
/// The target type is chosen by the caller; each `visit_*` method takes one
/// kind of event and either returns the value or says why it cannot.
pub struct TypedVisitor<T>(PhantomData<T>);

impl<T> Default for TypedVisitor<T> {
    fn default() -> Self {
        TypedVisitor(PhantomData)
    }
}

/// `r` is what coercing the integer `v` to `T` gives: `v` itself where it
/// fits in `T`, else an overflow.
pub open spec fn narrowed<T: IntTarget>(r: Result<T, VisitError>, v: int) -> bool {
    if fits_target(T::kind(), v) {
        r matches Ok(x) && x.value() == v
    } else {
        r == Err::<T, VisitError>(VisitError::Overflow)
    }
}

impl<T: IntTarget> TypedVisitor<T> {
    fn narrow_unsigned(v: u128) -> (r: Result<T, VisitError>)
        ensures
            narrowed(r, v as int),
    {
        match T::from_unsigned(v) {
            Some(x) => Ok(x),
            None => Err(VisitError::Overflow),
        }
    }

    fn narrow_signed(v: i128) -> (r: Result<T, VisitError>)
        ensures
            narrowed(r, v as int),
    {
        match T::from_signed(v) {
            Some(x) => Ok(x),
            None => Err(VisitError::Overflow),
        }
    }

    /// What the target expects, for error messages.
    pub fn expecting(&self) -> (r: &'static str)
        ensures
            r@ == description_spec(T::kind()),
    {
        T::target_kind().description()
    }

    pub fn visit_u8(self, v: u8) -> (r: Result<T, VisitError>)
        ensures
            narrowed(r, v as int),
    {
        Self::narrow_unsigned(v as u128)
    }

    pub fn visit_u16(self, v: u16) -> (r: Result<T, VisitError>)
        ensures
            narrowed(r, v as int),
    {
        Self::narrow_unsigned(v as u128)
    }

    pub fn visit_u32(self, v: u32) -> (r: Result<T, VisitError>)
        ensures
            narrowed(r, v as int),
    {
        Self::narrow_unsigned(v as u128)
    }

    pub fn visit_u64(self, v: u64) -> (r: Result<T, VisitError>)
        ensures
            narrowed(r, v as int),
    {
        Self::narrow_unsigned(v as u128)
    }

    pub fn visit_u128(self, v: u128) -> (r: Result<T, VisitError>)
        ensures
            narrowed(r, v as int),
    {
        Self::narrow_unsigned(v)
    }

    pub fn visit_i8(self, v: i8) -> (r: Result<T, VisitError>)
        ensures
            narrowed(r, v as int),
    {
        Self::narrow_signed(v as i128)
    }

    pub fn visit_i16(self, v: i16) -> (r: Result<T, VisitError>)
        ensures
            narrowed(r, v as int),
    {
        Self::narrow_signed(v as i128)
    }

    pub fn visit_i32(self, v: i32) -> (r: Result<T, VisitError>)
        ensures
            narrowed(r, v as int),
    {
        Self::narrow_signed(v as i128)
    }

    pub fn visit_i64(self, v: i64) -> (r: Result<T, VisitError>)
        ensures
            narrowed(r, v as int),
    {
        Self::narrow_signed(v as i128)
    }

    pub fn visit_i128(self, v: i128) -> (r: Result<T, VisitError>)
        ensures
            narrowed(r, v as int),
    {
        Self::narrow_signed(v)
    }

    /// An integer target accepts no byte sequence.
    pub fn visit_bytes(self, v: &[u8]) -> (r: Result<T, VisitError>)
        ensures
            r == Err::<T, VisitError>(
                VisitError::InvalidType { event: EventKind::Bytes, expected: T::kind() },
            ),
    {
        Err(VisitError::InvalidType { event: EventKind::Bytes, expected: T::target_kind() })
    }

    /// An integer target accepts no string.
    pub fn visit_str(self, v: &str) -> (r: Result<T, VisitError>)
        ensures
            r == Err::<T, VisitError>(
                VisitError::InvalidType { event: EventKind::Str, expected: T::kind() },
            ),
    {
        Err(VisitError::InvalidType { event: EventKind::Str, expected: T::target_kind() })
    }
}


impl TypedVisitor<Vec<u8>> {
    /// What the target expects, for error messages.
    pub fn expecting(&self) -> (r: &'static str)
        ensures
            r@ == description_spec(TargetKind::Bytes),
    {
        TargetKind::Bytes.description()
    }

    /// Accepts a borrowed byte sequence as an owned copy.
    pub fn visit_bytes(self, v: &[u8]) -> (r: Result<Vec<u8>, VisitError>)
        ensures
            r matches Ok(b) && b@ == v@,
    {
        let mut b: Vec<u8> = Vec::with_capacity(v.len());
        let mut i: usize = 0;
        while i < v.len()
            invariant
                i <= v@.len(),
                b@ == v@.subrange(0, i as int),
            decreases v@.len() - i,
        {
            b.push(v[i]);
            i = i + 1;
        }
        assert(b@ == v@);
        self.visit_byte_buf(b)
    }

    /// Accepts an owned byte sequence as it is.
    pub fn visit_byte_buf(self, v: Vec<u8>) -> (r: Result<Vec<u8>, VisitError>)
        ensures
            r == Ok::<Vec<u8>, VisitError>(v),
    {
        Ok(v)
    }

    /// A byte-sequence target accepts no string.
    pub fn visit_str(self, v: &str) -> (r: Result<Vec<u8>, VisitError>)
        ensures
            r == Err::<Vec<u8>, VisitError>(
                VisitError::InvalidType { event: EventKind::Str, expected: TargetKind::Bytes },
            ),
    {
        Err(VisitError::InvalidType { event: EventKind::Str, expected: TargetKind::Bytes })
    }

    /// A byte-sequence target accepts no string.
    pub fn visit_string(self, v: String) -> (r: Result<Vec<u8>, VisitError>)
        ensures
            r == Err::<Vec<u8>, VisitError>(
                VisitError::InvalidType { event: EventKind::Str, expected: TargetKind::Bytes },
            ),
    {
        self.visit_str(v.as_str())
    }
}

impl TypedVisitor<String> {
    /// What the target expects, for error messages.
    pub fn expecting(&self) -> (r: &'static str)
        ensures
            r@ == description_spec(TargetKind::Str),
    {
        TargetKind::Str.description()
    }

    /// Accepts a borrowed string as an owned copy.
    pub fn visit_str(self, v: &str) -> (r: Result<String, VisitError>)
        ensures
            r matches Ok(s) && s@ == v@,
    {
        self.visit_string(v.to_owned())
    }

    /// Accepts an owned string as it is.
    pub fn visit_string(self, v: String) -> (r: Result<String, VisitError>)
        ensures
            r == Ok::<String, VisitError>(v),
    {
        Ok(v)
    }

    /// A string target accepts no byte sequence.
    pub fn visit_bytes(self, v: &[u8]) -> (r: Result<String, VisitError>)
        ensures
            r == Err::<String, VisitError>(
                VisitError::InvalidType { event: EventKind::Bytes, expected: TargetKind::Str },
            ),
    {
        Err(VisitError::InvalidType { event: EventKind::Bytes, expected: TargetKind::Str })
    }

    /// A string target accepts no byte sequence.
    pub fn visit_byte_buf(self, v: Vec<u8>) -> (r: Result<String, VisitError>)
        ensures
            r == Err::<String, VisitError>(
                VisitError::InvalidType { event: EventKind::Bytes, expected: TargetKind::Str },
            ),
    {
        self.visit_bytes(v.as_slice())
    }
}


/// Coercing a value `v` of an integer event kind `e` to an integer target:
/// the coercion succeeds exactly when `v` lies in the target's range, and
/// then gives `v` unchanged; otherwise it fails with an overflow. Where the
/// matrix promises an exact match or a widening, it always succeeds.
pub proof fn lemma_integer_coercion<T: IntTarget>(e: EventKind, v: int, r: Result<T, VisitError>)
    requires
        fits_event(e, v),
        narrowed(r, v),
    ensures
        r is Ok <==> fits_target(T::kind(), v),
        r matches Ok(x) ==> x.value() == v,
        r is Err ==> r == Err::<T, VisitError>(VisitError::Overflow),
        conversion_spec(e, T::kind()) is Exact || conversion_spec(e, T::kind()) is Widen ==> r is Ok,
{
    T::lemma_integer_kind();
    lemma_integer_rules(e, T::kind());
}

} // verus!
