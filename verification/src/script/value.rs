//! Values exchanged between the host and the Lua engine.
//!
//! A value is a tag and a run of bytes. The tag says how the bytes are to be
//! read; every conversion back to a host type checks the tag, and where the
//! tag fixes a size, the number of bytes, before it reads anything. No
//! conversion turns one kind of value into another.
//!
//! A number travels as the eight bytes of an IEEE-754 double in the byte order
//! of the host. This module carries those bytes and never looks inside them:
//! `f64::to_ne_bytes` and `f64::from_ne_bytes` on the caller's side turn them
//! from and into a floating-point number, bit for bit.

use vstd::prelude::*;

verus! {

/// The kind of a Lua value.
///
/// Only `L_NIL`, `L_BOOLEAN`, `L_NUMBER` and `L_STRING` can be built from and
/// turned back into host values. The other tags exist so that every value the
/// engine can hold has a name on this side.
#[allow(non_camel_case_types)]
#[derive(Debug, Clone, Copy, PartialEq, Eq, Structural)]
pub enum LuaType {
    L_NIL,
    L_BOOLEAN,
    L_LIGHTUSERDATA,
    L_NUMBER,
    L_STRING,
    L_TABLE,
    L_FUNCTION,
    L_USERDATA,
    L_THREAD,
}

impl LuaType {
    /// The byte that stands for this tag where a value crosses to the engine.
    pub open spec fn spec_code(self) -> u8 {
        match self {
            LuaType::L_NIL => 0,
            LuaType::L_BOOLEAN => 1,
            LuaType::L_LIGHTUSERDATA => 2,
            LuaType::L_NUMBER => 3,
            LuaType::L_STRING => 4,
            LuaType::L_TABLE => 5,
            LuaType::L_FUNCTION => 6,
            LuaType::L_USERDATA => 7,
            LuaType::L_THREAD => 8,
        }
    }

    /// The byte that stands for this tag where a value crosses to the engine.
    #[verifier::when_used_as_spec(spec_code)]
    pub fn code(self) -> (code: u8)
        ensures
            code == self.spec_code(),
    {
        match self {
            LuaType::L_NIL => 0,
            LuaType::L_BOOLEAN => 1,
            LuaType::L_LIGHTUSERDATA => 2,
            LuaType::L_NUMBER => 3,
            LuaType::L_STRING => 4,
            LuaType::L_TABLE => 5,
            LuaType::L_FUNCTION => 6,
            LuaType::L_USERDATA => 7,
            LuaType::L_THREAD => 8,
        }
    }

    /// The tag that `code` stands for; `None` if it stands for none.
    pub fn from_code(code: u8) -> (tag: Option<LuaType>)
        ensures
            match tag {
                Some(t) => t.spec_code() == code,
                None => code > 8,
            },
    {
        match code {
            0 => Some(LuaType::L_NIL),
            1 => Some(LuaType::L_BOOLEAN),
            2 => Some(LuaType::L_LIGHTUSERDATA),
            3 => Some(LuaType::L_NUMBER),
            4 => Some(LuaType::L_STRING),
            5 => Some(LuaType::L_TABLE),
            6 => Some(LuaType::L_FUNCTION),
            7 => Some(LuaType::L_USERDATA),
            8 => Some(LuaType::L_THREAD),
            _ => None,
        }
    }
}

/// Why a value could not be read as the requested host type.
#[derive(Debug, Clone, Copy, PartialEq, Eq, Structural)]
pub enum ValueError {
    /// The tag is not the one asked for, or the payload has the wrong size for it.
    TypeMismatch,
    /// The tag is `L_STRING` but the payload is not UTF-8.
    EncodingError,
}

/// Mathematical model of a [`LuaValue`]: its tag and its bytes.
pub ghost struct ValueModel {
    pub tag: LuaType,
    pub payload: Seq<u8>,
}

/// The number of bytes in the payload of a number.
pub const NUMBER_SIZE: usize = 8;

/// The nil value: no payload.
pub open spec fn nil() -> ValueModel {
    ValueModel { tag: LuaType::L_NIL, payload: Seq::empty() }
}

/// The value that stands for the boolean `b`: one byte, 1 or 0.
pub open spec fn encode_bool(b: bool) -> ValueModel {
    ValueModel {
        tag: LuaType::L_BOOLEAN,
        payload: seq![if b { 1u8 } else { 0u8 }],
    }
}

/// Reads `v` as a boolean: any non-zero byte is `true`.
pub open spec fn decode_bool(v: ValueModel) -> Result<bool, ValueError> {
    if v.tag == LuaType::L_BOOLEAN && v.payload.len() == 1 {
        Ok(v.payload[0] != 0)
    } else {
        Err(ValueError::TypeMismatch)
    }
}

/// The value that stands for the number whose eight bytes are `bytes`.
pub open spec fn encode_number(bytes: Seq<u8>) -> ValueModel
    recommends
        bytes.len() == NUMBER_SIZE,
{
    ValueModel { tag: LuaType::L_NUMBER, payload: bytes }
}

/// Reads `v` as a number: its eight bytes, whatever they hold.
pub open spec fn decode_number(v: ValueModel) -> Result<Seq<u8>, ValueError> {
    if v.tag == LuaType::L_NUMBER && v.payload.len() == NUMBER_SIZE {
        Ok(v.payload)
    } else {
        Err(ValueError::TypeMismatch)
    }
}

/// The value that stands for the string `s`: its UTF-8 encoding, with
/// neither a length in front nor a terminator behind.
pub open spec fn encode_string(s: Seq<char>) -> ValueModel {
    ValueModel { tag: LuaType::L_STRING, payload: vstd::utf8::encode_utf8(s) }
}

/// Reads `v` as a string. The tag is checked first, then the encoding.
pub open spec fn decode_string(v: ValueModel) -> Result<Seq<char>, ValueError> {
    if v.tag != LuaType::L_STRING {
        Err(ValueError::TypeMismatch)
    } else if !vstd::utf8::valid_utf8(v.payload) {
        Err(ValueError::EncodingError)
    } else {
        Ok(vstd::utf8::decode_utf8(v.payload))
    }
}

/// What the tag promises of the payload. Values built by the constructors of
/// [`LuaValue`] keep this promise; a value that comes from the engine, or from
/// [`LuaValue::from_raw`], may not.
pub open spec fn well_formed(v: ValueModel) -> bool {
    match v.tag {
        LuaType::L_NIL => v.payload.len() == 0,
        LuaType::L_BOOLEAN => v.payload.len() == 1 && (v.payload[0] == 0 || v.payload[0] == 1),
        LuaType::L_NUMBER => v.payload.len() == NUMBER_SIZE,
        LuaType::L_STRING => vstd::utf8::valid_utf8(v.payload),
        _ => true,
    }
}

/// The error type of `std::str::from_utf8`.
#[verifier::external_type_specification]
#[verifier::external_body]
pub struct ExUtf8Error(core::str::Utf8Error);

/// Calls `std::str::from_utf8`.
///
/// Taken on trust from the standard library's documentation: the call
/// succeeds exactly when `bytes` is valid UTF-8, and the string slice it then
/// returns is made of those same bytes.
#[verifier::external_body]
fn str_from_utf8(bytes: &[u8]) -> (result: Result<&str, core::str::Utf8Error>)
    ensures
        result is Ok <==> vstd::utf8::valid_utf8(bytes@),
        result matches Ok(s) ==> vstd::utf8::encode_utf8(s@) == bytes@,
{
    std::str::from_utf8(bytes)
}

/// A tagged run of bytes, as the engine hands it over and takes it back.
#[derive(Debug, Clone, PartialEq, Eq)]
pub struct LuaValue {
    t: LuaType,
    v: Vec<u8>,
}

impl View for LuaValue {
    type V = ValueModel;

    closed spec fn view(&self) -> ValueModel {
        ValueModel { tag: self.t, payload: self.v@ }
    }
}

impl LuaValue {
    /// The nil value.
    pub fn new() -> (value: Self)
        ensures
            value@ == nil(),
            well_formed(value@),
    {
        Self { t: LuaType::L_NIL, v: Vec::new() }
    }

    /// A value with the given tag and payload, taken as they are. This is how
    /// a value that the engine produced enters the host; nothing is checked
    /// here, every reader checks for itself.
    pub fn from_raw(t: LuaType, v: Vec<u8>) -> (value: Self)
        ensures
            value@ == (ValueModel { tag: t, payload: v@ }),
    {
        Self { t, v }
    }

    /// The tag of this value.
    #[inline]
    pub fn get_type(&self) -> (t: LuaType)
        ensures
            t == self@.tag,
    {
        self.t
    }

    /// The payload of this value.
    #[inline]
    pub fn bytes(&self) -> (payload: &[u8])
        ensures
            payload@ == self@.payload,
    {
        self.v.as_slice()
    }

    /// Builds the value for a boolean.
    #[inline]
    pub fn from_bool(p: bool) -> (value: Self)
        ensures
            value@ == encode_bool(p),
            well_formed(value@),
            decode_bool(value@) == Ok::<bool, ValueError>(p),
    {
        let byte: u8 = if p { 1 } else { 0 };
        let mut v: Vec<u8> = Vec::new();
        v.push(byte);
        assert(v@ =~= seq![byte]);
        Self { t: LuaType::L_BOOLEAN, v }
    }

    /// Reads this value as a boolean. Fails with `TypeMismatch` unless the
    /// tag is `L_BOOLEAN` and the payload is one byte long.
    #[inline]
    pub fn as_bool(&self) -> (result: Result<bool, ValueError>)
        ensures
            result == decode_bool(self@),
    {
        if self.t == LuaType::L_BOOLEAN && self.v.len() == 1 {
            Ok(self.v[0] != 0)
        } else {
            Err(ValueError::TypeMismatch)
        }
    }

    /// Builds the value for a number from the eight bytes of its double, in
    /// the host's byte order.
    #[inline]
    pub fn from_number(p: [u8; 8]) -> (value: Self)
        ensures
            value@ == encode_number(p@),
            well_formed(value@),
            decode_number(value@) == Ok::<Seq<u8>, ValueError>(p@),
    {
        let mut v: Vec<u8> = Vec::with_capacity(NUMBER_SIZE);
        let mut i: usize = 0;
        while i < NUMBER_SIZE
            invariant
                i <= NUMBER_SIZE,
                v@ == p@.subrange(0, i as int),
            decreases NUMBER_SIZE - i,
        {
            v.push(p[i]);
            assert(v@ =~= p@.subrange(0, i + 1));
            i += 1;
        }
        assert(v@ =~= p@);
        Self { t: LuaType::L_NUMBER, v }
    }

    /// Reads this value as a number: the eight bytes of its double, in the
    /// host's byte order, with no byte pattern singled out. Fails with
    /// `TypeMismatch` unless the tag is `L_NUMBER` and the payload is eight
    /// bytes long.
    #[inline]
    pub fn as_number(&self) -> (result: Result<[u8; 8], ValueError>)
        ensures
            result matches Ok(bytes) ==> decode_number(self@) == Ok::<Seq<u8>, ValueError>(bytes@),
            result matches Err(e) ==> decode_number(self@) == Err::<Seq<u8>, ValueError>(e),
    {
        if self.t == LuaType::L_NUMBER && self.v.len() == NUMBER_SIZE {
            let mut bytes: [u8; 8] = [0u8; 8];
            let mut i: usize = 0;
            while i < NUMBER_SIZE
                invariant
                    i <= NUMBER_SIZE,
                    self.v@.len() == NUMBER_SIZE,
                    forall|j: int| 0 <= j < i ==> bytes@[j] == self.v@[j],
                decreases NUMBER_SIZE - i,
            {
                bytes[i] = self.v[i];
                i += 1;
            }
            assert(bytes@ =~= self.v@);
            Ok(bytes)
        } else {
            Err(ValueError::TypeMismatch)
        }
    }

    /// Builds the value for a string: its UTF-8 bytes. The empty string gives
    /// an empty payload.
    #[inline]
    pub fn from_string(p: &str) -> (value: Self)
        ensures
            value@ == encode_string(p@),
            well_formed(value@),
            decode_string(value@) == Ok::<Seq<char>, ValueError>(p@),
    {
        let v = vstd::slice::slice_to_vec(p.as_bytes());
        proof {
            lemma_string_round_trip(p@);
        }
        Self { t: LuaType::L_STRING, v }
    }

    /// Reads this value as a string. Fails with `TypeMismatch` unless the tag
    /// is `L_STRING`, and with `EncodingError` if the payload is not UTF-8.
    #[inline]
    pub fn as_string(&self) -> (result: Result<String, ValueError>)
        ensures
            result matches Ok(s) ==> decode_string(self@) == Ok::<Seq<char>, ValueError>(s@),
            result matches Err(e) ==> decode_string(self@) == Err::<Seq<char>, ValueError>(e),
    {
        if self.t == LuaType::L_STRING {
            match str_from_utf8(self.v.as_slice()) {
                Ok(d) => {
                    proof {
                        vstd::utf8::encode_utf8_decode_utf8(d@);
                    }
                    Ok(d.to_owned())
                },
                Err(_) => Err(ValueError::EncodingError),
            }
        } else {
            Err(ValueError::TypeMismatch)
        }
    }
}

impl Default for LuaValue {
    /// The nil value.
    fn default() -> (value: Self)
        ensures
            value@ == nil(),
    {
        LuaValue::new()
    }
}

/// No two tags stand behind the same byte, and no byte above 8 stands for a
/// tag.
pub proof fn lemma_codes_are_distinct(a: LuaType, b: LuaType)
    ensures
        a.spec_code() <= 8,
        a.spec_code() == b.spec_code() ==> a == b,
{
}

/// A boolean that is encoded and decoded again is the same boolean.
pub proof fn lemma_bool_round_trip(b: bool)
    ensures
        decode_bool(encode_bool(b)) == Ok::<bool, ValueError>(b),
{
}

/// The eight bytes of a number that are encoded and decoded again are the
/// same bytes, whatever number they stand for.
pub proof fn lemma_number_round_trip(bytes: Seq<u8>)
    requires
        bytes.len() == NUMBER_SIZE,
    ensures
        decode_number(encode_number(bytes)) == Ok::<Seq<u8>, ValueError>(bytes),
{
}

/// A string that is encoded and decoded again is the same string.
pub proof fn lemma_string_round_trip(s: Seq<char>)
    ensures
        decode_string(encode_string(s)) == Ok::<Seq<char>, ValueError>(s),
{
    vstd::utf8::encode_utf8_valid_utf8(s);
    vstd::utf8::encode_utf8_decode_utf8(s);
}

/// Reading a value as a type that its tag does not name fails with
/// `TypeMismatch`, whatever the payload.
pub proof fn lemma_tag_mismatch(v: ValueModel)
    ensures
        v.tag != LuaType::L_BOOLEAN ==> decode_bool(v) == Err::<bool, ValueError>(
            ValueError::TypeMismatch,
        ),
        v.tag != LuaType::L_NUMBER ==> decode_number(v) == Err::<Seq<u8>, ValueError>(
            ValueError::TypeMismatch,
        ),
        v.tag != LuaType::L_STRING ==> decode_string(v) == Err::<Seq<char>, ValueError>(
            ValueError::TypeMismatch,
        ),
{
}

/// Reading a boolean whose payload is not one byte long, or a number whose
/// payload is not eight bytes long, fails with `TypeMismatch`.
pub proof fn lemma_payload_length(v: ValueModel)
    ensures
        v.tag == LuaType::L_BOOLEAN && v.payload.len() != 1 ==> decode_bool(v) == Err::<
            bool,
            ValueError,
        >(ValueError::TypeMismatch),
        v.tag == LuaType::L_NUMBER && v.payload.len() != NUMBER_SIZE ==> decode_number(v) == Err::<
            Seq<u8>,
            ValueError,
        >(ValueError::TypeMismatch),
{
}

/// Every encoded value keeps the promise of its tag.
pub proof fn lemma_encoded_values_are_well_formed(b: bool, bytes: Seq<u8>, s: Seq<char>)
    requires
        bytes.len() == NUMBER_SIZE,
    ensures
        well_formed(nil()),
        well_formed(encode_bool(b)),
        well_formed(encode_number(bytes)),
        well_formed(encode_string(s)),
{
    vstd::utf8::encode_utf8_valid_utf8(s);
}

/// A well-formed value of one of the four kinds that the host can read is
/// read without error by the function for its kind.
pub proof fn lemma_well_formed_values_decode(v: ValueModel)
    requires
        well_formed(v),
    ensures
        v.tag == LuaType::L_BOOLEAN ==> decode_bool(v) is Ok,
        v.tag == LuaType::L_NUMBER ==> decode_number(v) is Ok,
        v.tag == LuaType::L_STRING ==> decode_string(v) is Ok,
{
}

} // verus!
