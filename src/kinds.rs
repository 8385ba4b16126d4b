use vstd::prelude::*;

verus! {

/// The shape of one primitive value that a decoder hands over.
#[derive(Clone, Copy, Debug, PartialEq, Eq, Structural)]
pub enum EventKind {
    U8,
    U16,
    U32,
    U64,
    U128,
    I8,
    I16,
    I32,
    I64,
    I128,
    F32,
    F64,
    Bytes,
    Str,
}

/// The type that a coercion produces.
#[derive(Clone, Copy, Debug, PartialEq, Eq, Structural)]
pub enum TargetKind {
    U8,
    I8,
    U16,
    I16,
    U32,
    I32,
    F32,
    F64,
    Bytes,
    Str,
}

/// How a value of one event kind becomes a value of a target kind.
#[derive(Clone, Copy, Debug, PartialEq, Eq, Structural)]
pub enum Conversion {
    /// The event already has the target's type.
    Exact,
    /// Every value of the event kind fits the target without loss.
    Widen,
    /// Values are accepted only where they fit the target's range.
    Narrow,
    /// A numeric cast to a float that never fails and may round.
    Approximate,
    /// No value of the event kind is accepted.
    Reject,
}

pub open spec fn is_integer_event(e: EventKind) -> bool {
    !(e is F32 || e is F64 || e is Bytes || e is Str)
}

pub open spec fn is_integer_target(t: TargetKind) -> bool {
    !(t is F32 || t is F64 || t is Bytes || t is Str)
}

pub open spec fn is_float_target(t: TargetKind) -> bool {
    t is F32 || t is F64
}

/// The least value of an integer event kind.
pub open spec fn event_min(e: EventKind) -> int {
    match e {
        EventKind::I8 => i8::MIN as int,
        EventKind::I16 => i16::MIN as int,
        EventKind::I32 => i32::MIN as int,
        EventKind::I64 => i64::MIN as int,
        EventKind::I128 => i128::MIN as int,
        _ => 0,
    }
}

/// The greatest value of an integer event kind.
pub open spec fn event_max(e: EventKind) -> int {
    match e {
        EventKind::U8 => u8::MAX as int,
        EventKind::U16 => u16::MAX as int,
        EventKind::U32 => u32::MAX as int,
        EventKind::U64 => u64::MAX as int,
        EventKind::U128 => u128::MAX as int,
        EventKind::I8 => i8::MAX as int,
        EventKind::I16 => i16::MAX as int,
        EventKind::I32 => i32::MAX as int,
        EventKind::I64 => i64::MAX as int,
        EventKind::I128 => i128::MAX as int,
        _ => 0,
    }
}

/// The least value of an integer target kind.
pub open spec fn target_min(t: TargetKind) -> int {
    match t {
        TargetKind::I8 => i8::MIN as int,
        TargetKind::I16 => i16::MIN as int,
        TargetKind::I32 => i32::MIN as int,
        _ => 0,
    }
}

/// The greatest value of an integer target kind.
pub open spec fn target_max(t: TargetKind) -> int {
    match t {
        TargetKind::U8 => u8::MAX as int,
        TargetKind::I8 => i8::MAX as int,
        TargetKind::U16 => u16::MAX as int,
        TargetKind::I16 => i16::MAX as int,
        TargetKind::U32 => u32::MAX as int,
        TargetKind::I32 => i32::MAX as int,
        _ => 0,
    }
}

/// `v` is a value of the integer target kind `t`.
pub open spec fn fits_target(t: TargetKind, v: int) -> bool {
    is_integer_target(t) && target_min(t) <= v <= target_max(t)
}

/// `v` is a value of the integer event kind `e`.
pub open spec fn fits_event(e: EventKind, v: int) -> bool {
    is_integer_event(e) && event_min(e) <= v <= event_max(e)
}

/// The event kind that carries values of the target's own type.
pub open spec fn own_event(t: TargetKind) -> EventKind {
    match t {
        TargetKind::U8 => EventKind::U8,
        TargetKind::I8 => EventKind::I8,
        TargetKind::U16 => EventKind::U16,
        TargetKind::I16 => EventKind::I16,
        TargetKind::U32 => EventKind::U32,
        TargetKind::I32 => EventKind::I32,
        TargetKind::F32 => EventKind::F32,
        TargetKind::F64 => EventKind::F64,
        TargetKind::Bytes => EventKind::Bytes,
        TargetKind::Str => EventKind::Str,
    }
}

/// The conversion matrix: the rule for every pair of event kind and target kind.
pub open spec fn conversion_spec(e: EventKind, t: TargetKind) -> Conversion {
    if e == own_event(t) {
        Conversion::Exact
    } else if is_integer_target(t) {
        if !is_integer_event(e) {
            Conversion::Reject
        } else if target_min(t) <= event_min(e) && event_max(e) <= target_max(t) {
            Conversion::Widen
        } else {
            Conversion::Narrow
        }
    } else if t is F64 && e is F32 {
        Conversion::Widen
    } else if is_float_target(t) && (is_integer_event(e) || e is F64) {
        Conversion::Approximate
    } else {
        Conversion::Reject
    }
}

/// What a target kind expects, in the words of an error message.
pub open spec fn description_spec(t: TargetKind) -> Seq<char> {
    match t {
        TargetKind::U8 => "a u8"@,
        TargetKind::I8 => "a i8"@,
        TargetKind::U16 => "a u16"@,
        TargetKind::I16 => "a i16"@,
        TargetKind::U32 => "a u32"@,
        TargetKind::I32 => "a i32"@,
        TargetKind::F32 => "a float"@,
        TargetKind::F64 => "a float"@,
        TargetKind::Bytes => "bytes"@,
        TargetKind::Str => "a string"@,
    }
}

impl TargetKind {
    /// The event kind that carries values of this target's own type.
    pub fn own_event(self) -> (r: EventKind)
        ensures
            r == own_event(self),
    {
        match self {
            TargetKind::U8 => EventKind::U8,
            TargetKind::I8 => EventKind::I8,
            TargetKind::U16 => EventKind::U16,
            TargetKind::I16 => EventKind::I16,
            TargetKind::U32 => EventKind::U32,
            TargetKind::I32 => EventKind::I32,
            TargetKind::F32 => EventKind::F32,
            TargetKind::F64 => EventKind::F64,
            TargetKind::Bytes => EventKind::Bytes,
            TargetKind::Str => EventKind::Str,
        }
    }

    /// The range of an integer target as a pair of least and greatest value;
    /// `None` for the other targets.
    pub fn bounds(self) -> (r: Option<(i128, u128)>)
        ensures
            r is Some <==> is_integer_target(self),
            r matches Some(b) ==> b.0 == target_min(self) && b.1 == target_max(self),
    {
        match self {
            TargetKind::U8 => Some((0, 255)),
            TargetKind::I8 => Some((-128, 127)),
            TargetKind::U16 => Some((0, 65535)),
            TargetKind::I16 => Some((-32768, 32767)),
            TargetKind::U32 => Some((0, 4294967295)),
            TargetKind::I32 => Some((-2147483648, 2147483647)),
            _ => None,
        }
    }

    /// What this target expects, in the words of an error message.
    pub fn description(self) -> (r: &'static str)
        ensures
            r@ == description_spec(self),
    {
        match self {
            TargetKind::U8 => "a u8",
            TargetKind::I8 => "a i8",
            TargetKind::U16 => "a u16",
            TargetKind::I16 => "a i16",
            TargetKind::U32 => "a u32",
            TargetKind::I32 => "a i32",
            TargetKind::F32 => "a float",
            TargetKind::F64 => "a float",
            TargetKind::Bytes => "bytes",
            TargetKind::Str => "a string",
        }
    }
}

impl EventKind {
    /// The range of an integer event as a pair of least and greatest value;
    /// `None` for the other events.
    pub fn bounds(self) -> (r: Option<(i128, u128)>)
        ensures
            r is Some <==> is_integer_event(self),
            r matches Some(b) ==> b.0 == event_min(self) && b.1 == event_max(self),
    {
        match self {
            EventKind::U8 => Some((0, 255)),
            EventKind::U16 => Some((0, 65535)),
            EventKind::U32 => Some((0, 4294967295)),
            EventKind::U64 => Some((0, 18446744073709551615)),
            EventKind::U128 => Some((0, 340282366920938463463374607431768211455)),
            EventKind::I8 => Some((-128, 127)),
            EventKind::I16 => Some((-32768, 32767)),
            EventKind::I32 => Some((-2147483648, 2147483647)),
            EventKind::I64 => Some((-9223372036854775808, 9223372036854775807)),
            EventKind::I128 => Some(
                (
                    -170141183460469231731687303715884105728,
                    170141183460469231731687303715884105727,
                ),
            ),
            _ => None,
        }
    }
}

/// Looks up the rule of the conversion matrix for an event kind and a target kind.
pub fn conversion(e: EventKind, t: TargetKind) -> (r: Conversion)
    ensures
        r == conversion_spec(e, t),
{
    if e == t.own_event() {
        return Conversion::Exact;
    }
    match t.bounds() {
        Some((t_min, t_max)) => match e.bounds() {
            Some((e_min, e_max)) => {
                if t_min <= e_min && e_max <= t_max {
                    Conversion::Widen
                } else {
                    Conversion::Narrow
                }
            },
            None => Conversion::Reject,
        },
        None => {
            match (t, e) {
                (TargetKind::F64, EventKind::F32) => Conversion::Widen,
                (TargetKind::F32, EventKind::Bytes) | (TargetKind::F32, EventKind::Str) | (
                    TargetKind::F64,
                    EventKind::Bytes,
                ) | (TargetKind::F64, EventKind::Str) => Conversion::Reject,
                (TargetKind::F32, _) | (TargetKind::F64, _) => Conversion::Approximate,
                _ => Conversion::Reject,
            }
        },
    }
}


/// Between integer kinds the matrix never rejects; it promises an exact
/// match or a widening exactly where every value of the event kind fits the
/// target, and asks for a range check otherwise.
pub proof fn lemma_integer_rules(e: EventKind, t: TargetKind)
    requires
        is_integer_event(e),
        is_integer_target(t),
    ensures
        conversion_spec(e, t) !is Reject,
        conversion_spec(e, t) !is Approximate,
        (conversion_spec(e, t) is Exact || conversion_spec(e, t) is Widen) <==> (forall|v: int|
            fits_event(e, v) ==> #[trigger] fits_target(t, v)),
{
    if !(conversion_spec(e, t) is Exact || conversion_spec(e, t) is Widen) {
        if event_min(e) < target_min(t) {
            assert(fits_event(e, event_min(e)) && !fits_target(t, event_min(e)));
        } else {
            assert(fits_event(e, event_max(e)) && !fits_target(t, event_max(e)));
        }
    }
}

/// A float target accepts every integer event, by a cast that never fails.
pub proof fn lemma_float_accepts_integers(e: EventKind, t: TargetKind)
    requires
        is_integer_event(e),
        is_float_target(t),
    ensures
        conversion_spec(e, t) == Conversion::Approximate,
{
}

/// A 32-bit float widens to a 64-bit float, and a 64-bit float is cast to a
/// 32-bit float without a range check: neither is ever rejected.
pub proof fn lemma_float_siblings()
    ensures
        conversion_spec(EventKind::F32, TargetKind::F64) == Conversion::Widen,
        conversion_spec(EventKind::F64, TargetKind::F32) == Conversion::Approximate,
{
}

/// The byte-sequence and string targets accept their own event kind and
/// reject every other.
pub proof fn lemma_bytes_and_strings_own_kind_only(e: EventKind, t: TargetKind)
    requires
        t is Bytes || t is Str,
    ensures
        conversion_spec(e, t) !is Reject <==> e == own_event(t),
        e == own_event(t) ==> conversion_spec(e, t) == Conversion::Exact,
{
}

} // verus!
