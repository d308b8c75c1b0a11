//! Integers and truth values as settings.
//!
//! An integer is stored as its decimal text and read back from decimal text
//! that lies within the bounds of its type. A truth value is stored as
//! `true` or `false`.

use vstd::prelude::*;
use crate::decimal::{
    digits, int_text, lemma_signed_round_trip, lemma_unsigned_round_trip, parse_signed,
    parse_unsigned, signed_parsed, unsigned_parsed, write_signed, write_unsigned,
};
use crate::text::{round_trips, FromText, ToText};

verus! {

impl ToText for u8 {
    open spec fn text(&self) -> Seq<char> {
        digits(*self as nat)
    }

    fn to_text(&self) -> (s: String) {
        write_unsigned(*self as u64)
    }
}

impl FromText for u8 {
    open spec fn parsed(text: Seq<char>) -> Option<u8> {
        match unsigned_parsed(text, u8::MAX as int) {
            Some(n) => Some(n as u8),
            None => None,
        }
    }

    fn from_text(text: &str) -> (value: Option<u8>) {
        match parse_unsigned(text, u8::MAX as u64) {
            Some(n) => Some(n as u8),
            None => None,
        }
    }
}

/// Every `u8` is read back from its text.
pub proof fn lemma_u8_round_trips(value: u8)
    ensures
        round_trips(value),
{
    lemma_unsigned_round_trip(value as nat, u8::MAX as int);
}

impl ToText for u16 {
    open spec fn text(&self) -> Seq<char> {
        digits(*self as nat)
    }

    fn to_text(&self) -> (s: String) {
        write_unsigned(*self as u64)
    }
}

impl FromText for u16 {
    open spec fn parsed(text: Seq<char>) -> Option<u16> {
        match unsigned_parsed(text, u16::MAX as int) {
            Some(n) => Some(n as u16),
            None => None,
        }
    }

    fn from_text(text: &str) -> (value: Option<u16>) {
        match parse_unsigned(text, u16::MAX as u64) {
            Some(n) => Some(n as u16),
            None => None,
        }
    }
}

/// Every `u16` is read back from its text.
pub proof fn lemma_u16_round_trips(value: u16)
    ensures
        round_trips(value),
{
    lemma_unsigned_round_trip(value as nat, u16::MAX as int);
}

impl ToText for u32 {
    open spec fn text(&self) -> Seq<char> {
        digits(*self as nat)
    }

    fn to_text(&self) -> (s: String) {
        write_unsigned(*self as u64)
    }
}

impl FromText for u32 {
    open spec fn parsed(text: Seq<char>) -> Option<u32> {
        match unsigned_parsed(text, u32::MAX as int) {
            Some(n) => Some(n as u32),
            None => None,
        }
    }

    fn from_text(text: &str) -> (value: Option<u32>) {
        match parse_unsigned(text, u32::MAX as u64) {
            Some(n) => Some(n as u32),
            None => None,
        }
    }
}

/// Every `u32` is read back from its text.
pub proof fn lemma_u32_round_trips(value: u32)
    ensures
        round_trips(value),
{
    lemma_unsigned_round_trip(value as nat, u32::MAX as int);
}

impl ToText for u64 {
    open spec fn text(&self) -> Seq<char> {
        digits(*self as nat)
    }

    fn to_text(&self) -> (s: String) {
        write_unsigned(*self as u64)
    }
}

impl FromText for u64 {
    open spec fn parsed(text: Seq<char>) -> Option<u64> {
        match unsigned_parsed(text, u64::MAX as int) {
            Some(n) => Some(n as u64),
            None => None,
        }
    }

    fn from_text(text: &str) -> (value: Option<u64>) {
        match parse_unsigned(text, u64::MAX as u64) {
            Some(n) => Some(n as u64),
            None => None,
        }
    }
}

/// Every `u64` is read back from its text.
pub proof fn lemma_u64_round_trips(value: u64)
    ensures
        round_trips(value),
{
    lemma_unsigned_round_trip(value as nat, u64::MAX as int);
}

impl ToText for usize {
    open spec fn text(&self) -> Seq<char> {
        digits(*self as nat)
    }

    fn to_text(&self) -> (s: String) {
        write_unsigned(*self as u64)
    }
}

impl FromText for usize {
    open spec fn parsed(text: Seq<char>) -> Option<usize> {
        match unsigned_parsed(text, usize::MAX as int) {
            Some(n) => Some(n as usize),
            None => None,
        }
    }

    fn from_text(text: &str) -> (value: Option<usize>) {
        match parse_unsigned(text, usize::MAX as u64) {
            Some(n) => Some(n as usize),
            None => None,
        }
    }
}

/// Every `usize` is read back from its text.
pub proof fn lemma_usize_round_trips(value: usize)
    ensures
        round_trips(value),
{
    lemma_unsigned_round_trip(value as nat, usize::MAX as int);
}

impl ToText for i8 {
    open spec fn text(&self) -> Seq<char> {
        int_text(*self as int)
    }

    fn to_text(&self) -> (s: String) {
        write_signed(*self as i64)
    }
}

impl FromText for i8 {
    open spec fn parsed(text: Seq<char>) -> Option<i8> {
        match signed_parsed(text, i8::MIN as int, i8::MAX as int) {
            Some(i) => Some(i as i8),
            None => None,
        }
    }

    fn from_text(text: &str) -> (value: Option<i8>) {
        match parse_signed(text, i8::MIN as i64, i8::MAX as i64) {
            Some(i) => Some(i as i8),
            None => None,
        }
    }
}

/// Every `i8` is read back from its text.
pub proof fn lemma_i8_round_trips(value: i8)
    ensures
        round_trips(value),
{
    lemma_signed_round_trip(value as int, i8::MIN as int, i8::MAX as int);
}

impl ToText for i16 {
    open spec fn text(&self) -> Seq<char> {
        int_text(*self as int)
    }

    fn to_text(&self) -> (s: String) {
        write_signed(*self as i64)
    }
}

impl FromText for i16 {
    open spec fn parsed(text: Seq<char>) -> Option<i16> {
        match signed_parsed(text, i16::MIN as int, i16::MAX as int) {
            Some(i) => Some(i as i16),
            None => None,
        }
    }

    fn from_text(text: &str) -> (value: Option<i16>) {
        match parse_signed(text, i16::MIN as i64, i16::MAX as i64) {
            Some(i) => Some(i as i16),
            None => None,
        }
    }
}

/// Every `i16` is read back from its text.
pub proof fn lemma_i16_round_trips(value: i16)
    ensures
        round_trips(value),
{
    lemma_signed_round_trip(value as int, i16::MIN as int, i16::MAX as int);
}

impl ToText for i32 {
    open spec fn text(&self) -> Seq<char> {
        int_text(*self as int)
    }

    fn to_text(&self) -> (s: String) {
        write_signed(*self as i64)
    }
}

impl FromText for i32 {
    open spec fn parsed(text: Seq<char>) -> Option<i32> {
        match signed_parsed(text, i32::MIN as int, i32::MAX as int) {
            Some(i) => Some(i as i32),
            None => None,
        }
    }

    fn from_text(text: &str) -> (value: Option<i32>) {
        match parse_signed(text, i32::MIN as i64, i32::MAX as i64) {
            Some(i) => Some(i as i32),
            None => None,
        }
    }
}

/// Every `i32` is read back from its text.
pub proof fn lemma_i32_round_trips(value: i32)
    ensures
        round_trips(value),
{
    lemma_signed_round_trip(value as int, i32::MIN as int, i32::MAX as int);
}

impl ToText for i64 {
    open spec fn text(&self) -> Seq<char> {
        int_text(*self as int)
    }

    fn to_text(&self) -> (s: String) {
        write_signed(*self as i64)
    }
}

impl FromText for i64 {
    open spec fn parsed(text: Seq<char>) -> Option<i64> {
        match signed_parsed(text, i64::MIN as int, i64::MAX as int) {
            Some(i) => Some(i as i64),
            None => None,
        }
    }

    fn from_text(text: &str) -> (value: Option<i64>) {
        match parse_signed(text, i64::MIN as i64, i64::MAX as i64) {
            Some(i) => Some(i as i64),
            None => None,
        }
    }
}

/// Every `i64` is read back from its text.
pub proof fn lemma_i64_round_trips(value: i64)
    ensures
        round_trips(value),
{
    lemma_signed_round_trip(value as int, i64::MIN as int, i64::MAX as int);
}

impl ToText for isize {
    open spec fn text(&self) -> Seq<char> {
        int_text(*self as int)
    }

    fn to_text(&self) -> (s: String) {
        write_signed(*self as i64)
    }
}

impl FromText for isize {
    open spec fn parsed(text: Seq<char>) -> Option<isize> {
        match signed_parsed(text, isize::MIN as int, isize::MAX as int) {
            Some(i) => Some(i as isize),
            None => None,
        }
    }

    fn from_text(text: &str) -> (value: Option<isize>) {
        match parse_signed(text, isize::MIN as i64, isize::MAX as i64) {
            Some(i) => Some(i as isize),
            None => None,
        }
    }
}

/// Every `isize` is read back from its text.
pub proof fn lemma_isize_round_trips(value: isize)
    ensures
        round_trips(value),
{
    lemma_signed_round_trip(value as int, isize::MIN as int, isize::MAX as int);
}

impl ToText for bool {
    open spec fn text(&self) -> Seq<char> {
        if *self {
            "true"@
        } else {
            "false"@
        }
    }

    fn to_text(&self) -> (s: String) {
        if *self {
            "true".to_owned()
        } else {
            "false".to_owned()
        }
    }
}

impl FromText for bool {
    open spec fn parsed(text: Seq<char>) -> Option<bool> {
        if text == "true"@ {
            Some(true)
        } else if text == "false"@ {
            Some(false)
        } else {
            None
        }
    }

    fn from_text(text: &str) -> (value: Option<bool>) {
        let given = text.to_owned();
        if given == "true".to_owned() {
            Some(true)
        } else if given == "false".to_owned() {
            Some(false)
        } else {
            None
        }
    }
}

/// Both truth values are read back from their text.
pub proof fn lemma_bool_round_trips(value: bool)
    ensures
        round_trips(value),
{
    reveal_strlit("true");
    reveal_strlit("false");
    assert("false"@[0] != "true"@[0]);
}

} // verus!
