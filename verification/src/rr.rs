//! The resource-record types of `trust_dns_client`, and the calls into that
//! crate that the library makes.
//!
//! Names, classes, record types, record data and record sets are values of
//! the outside crate. The library carries them through and never looks
//! inside: what it needs to know of one, it asks the crate. Nothing in this
//! file is proved. Each contract states what the crate's source shows of the
//! function it is given to, or of the call in the body below it.

use vstd::prelude::*;

use crate::rdata_text::rdata_text_supported;
use trust_dns_client::error::ParseError;
use trust_dns_client::rr::{DNSClass, Name, RData, RecordSet, RecordType};
use trust_dns_client::serialize::txt::RDataParser;

verus! {

/// A domain name.
#[verifier::external_type_specification]
#[verifier::external_body]
pub struct ExName(trust_dns_client::rr::Name);

/// The type of a resource record: A, AAAA, MX and so on.
#[verifier::external_type_specification]
#[verifier::external_body]
pub struct ExRecordType(trust_dns_client::rr::RecordType);

/// The class of a resource record: IN, CH and so on.
#[verifier::external_type_specification]
#[verifier::external_body]
pub struct ExDNSClass(trust_dns_client::rr::DNSClass);

/// The data of one resource record.
#[verifier::external_type_specification]
#[verifier::external_body]
pub struct ExRData(trust_dns_client::rr::RData);

/// The resource records of one name and type.
#[verifier::external_type_specification]
#[verifier::external_body]
pub struct ExRecordSet(trust_dns_client::rr::RecordSet);

/// The text parser's reason for refusing a text.
#[verifier::external_type_specification]
#[verifier::external_body]
pub struct ExParseError(trust_dns_client::error::ParseError);

/// The presentation form of a domain name, as its `Display` writes it.
pub uninterp spec fn name_text(name: Name) -> Seq<char>;

/// The mnemonic of a record type, as its `Display` writes it.
pub uninterp spec fn record_type_text(record_type: RecordType) -> Seq<char>;

/// The mnemonic of a class, as its `Display` writes it.
pub uninterp spec fn dns_class_text(class: DNSClass) -> Seq<char>;

/// The number of a record type on the wire.
pub uninterp spec fn record_type_code(record_type: RecordType) -> u16;

/// What `RData::try_from_str` makes of a text for a record type: the record
/// data, or nothing where it refuses the text.
pub uninterp spec fn parsed_rdata(record_type: RecordType, text: Seq<char>) -> Option<RData>;

/// The record type that a piece of record data belongs to.
pub uninterp spec fn rdata_record_type(rdata: RData) -> RecordType;

/// The record set that `RecordSet::with_ttl` makes.
pub uninterp spec fn new_record_set(name: Name, record_type: RecordType, ttl: u32) -> RecordSet;

/// The record set after `set_dns_class`.
pub uninterp spec fn record_set_in_class(set: RecordSet, class: DNSClass) -> RecordSet;

/// The record set after `add_rdata`.
pub uninterp spec fn record_set_adding(set: RecordSet, rdata: RData) -> RecordSet;

/// The name that a record set is for.
pub uninterp spec fn record_set_name(set: RecordSet) -> Name;

/// The record type of a record set.
pub uninterp spec fn record_set_type(set: RecordSet) -> RecordType;

/// The class of a record set.
pub uninterp spec fn record_set_class(set: RecordSet) -> DNSClass;

/// The time to live of a record set, in seconds.
pub uninterp spec fn record_set_ttl(set: RecordSet) -> u32;

/// `Name`'s `Display`, through `to_string`.
#[verifier::external_body]
pub(crate) fn name_to_string(name: &Name) -> (text: String)
    ensures
        text@ == name_text(*name),
{
    name.to_string()
}

/// `RecordType`'s `Display`, through `to_string`.
#[verifier::external_body]
pub(crate) fn record_type_to_string(record_type: RecordType) -> (text: String)
    ensures
        text@ == record_type_text(record_type),
{
    record_type.to_string()
}

/// `DNSClass`'s `Display`, through `to_string`.
#[verifier::external_body]
pub(crate) fn dns_class_to_string(class: DNSClass) -> (text: String)
    ensures
        text@ == dns_class_text(class),
{
    class.to_string()
}

/// `Name`'s `Clone`: the copy is the same name.
pub assume_specification[ <Name as Clone>::clone ](name: &Name) -> (copy: Name)
    ensures
        copy == *name,
;

/// `u16::from` on a record type.
pub assume_specification[ <u16 as From<RecordType>>::from ](record_type: RecordType) -> (code: u16)
    ensures
        code == record_type_code(record_type),
;

/// `RData::try_from_str`. It tokenizes the text and parses the tokens as the
/// record type asks; the result depends on nothing else. It aborts in four
/// places: where its tokenizer runs out of steps, where `parse_time`, which
/// only SOA uses, leaves 32 bits, where `RecordType::from_str`, which only
/// CSYNC uses, meets a word that is not made of letters and digits, and where
/// the SVCB parser, which HTTPS shares, unwraps the values of an `alpn`
/// parameter. `requires` leaves those inputs out: `rdata_text` says how.
#[verifier::external_body]
pub(crate) fn parse_rdata(record_type: RecordType, text: &str) -> (parsed: Result<
    RData,
    ParseError,
>)
    requires
        rdata_text_supported(record_type_code(record_type), text@),
    ensures
        parsed is Ok <==> parsed_rdata(record_type, text@) is Some,
        parsed matches Ok(rdata) ==> parsed_rdata(record_type, text@) == Some(rdata),
{
    RData::try_from_str(record_type, text)
}

/// `RData::to_record_type`.
pub assume_specification[ RData::to_record_type ](rdata: &RData) -> (record_type: RecordType)
    ensures
        record_type == rdata_record_type(*rdata),
;

/// `RecordType`'s `==`, which `derive` wrote: two record types are equal
/// where they are the same.
pub assume_specification[ <RecordType as PartialEq>::eq ](
    this: &RecordType,
    other: &RecordType,
) -> (same: bool)
    ensures
        same == (*this == *other),
;

/// `RecordSet::with_ttl`: an empty record set of the given name, record type
/// and time to live.
pub assume_specification[ RecordSet::with_ttl ](
    name: Name,
    record_type: RecordType,
    ttl: u32,
) -> (set: RecordSet)
    ensures
        set == new_record_set(name, record_type, ttl),
        record_set_name(set) == name,
        record_set_type(set) == record_type,
        record_set_ttl(set) == ttl,
;

/// `RecordSet::set_dns_class`: it sets the class of the set and of the
/// records in it, and leaves name, record type and time to live alone.
pub assume_specification[ RecordSet::set_dns_class ](set: &mut RecordSet, dns_class: DNSClass)
    ensures
        *final(set) == record_set_in_class(*old(set), dns_class),
        record_set_class(*final(set)) == dns_class,
        record_set_name(*final(set)) == record_set_name(*old(set)),
        record_set_type(*final(set)) == record_set_type(*old(set)),
        record_set_ttl(*final(set)) == record_set_ttl(*old(set)),
;

/// `RecordSet::add_rdata`: it makes a record of the set's name, type and
/// time to live around the data and inserts it, which replaces, adds or
/// ignores by rules of its own; name, record type, class and time to live of
/// the set stay. What it returns, whether the set has changed, is left
/// open. With debug assertions it aborts on data of another record type than
/// the set's, which `requires` leaves out.
pub assume_specification[ RecordSet::add_rdata ](set: &mut RecordSet, rdata: RData) -> (added:
    bool)
    requires
        rdata_record_type(rdata) == record_set_type(*old(set)),
    ensures
        *final(set) == record_set_adding(*old(set), rdata),
        record_set_name(*final(set)) == record_set_name(*old(set)),
        record_set_type(*final(set)) == record_set_type(*old(set)),
        record_set_class(*final(set)) == record_set_class(*old(set)),
        record_set_ttl(*final(set)) == record_set_ttl(*old(set)),
;

} // verus!
