//! From record-data texts to a record set.

use vstd::prelude::*;

use crate::rdata_text::{is_rdata_text_supported, rdata_text_supported};
use crate::rr::{
    new_record_set, parse_rdata, parsed_rdata, rdata_record_type, record_set_adding,
    record_set_class, record_set_in_class, record_set_name, record_set_ttl, record_set_type,
    record_type_code,
};
use trust_dns_client::rr::{DNSClass, Name, RData, RecordSet, RecordType};

verus! {

/// Why a text did not become record data.
#[derive(Clone, Copy, Debug, PartialEq, Eq, Structural)]
pub enum RdataError {
    /// The text is not one that the library hands to the parser.
    Unsupported,
    /// The parser refused the text, or read it as data of another record
    /// type than the declared one.
    Invalid,
}

/// What one text stands for under a record type.
pub open spec fn rdata_of(record_type: RecordType, text: Seq<char>) -> Result<RData, RdataError> {
    if !rdata_text_supported(record_type_code(record_type), text) {
        Err(RdataError::Unsupported)
    } else {
        match parsed_rdata(record_type, text) {
            Some(rdata) => if rdata_record_type(rdata) == record_type {
                Ok(rdata)
            } else {
                Err(RdataError::Invalid)
            },
            None => Err(RdataError::Invalid),
        }
    }
}

/// The characters of each string.
pub open spec fn texts_of(strings: Seq<String>) -> Seq<Seq<char>> {
    strings.map_values(|s: String| s@)
}

/// Every text stands for record data of the record type.
pub open spec fn all_rdata_valid(record_type: RecordType, texts: Seq<Seq<char>>) -> bool {
    forall|i: int| 0 <= i < texts.len() ==> (#[trigger] rdata_of(record_type, texts[i])) is Ok
}

/// The record set after the data of each text was added to it, first text
/// first; or, where a text stands for no data, the error of the first such.
pub open spec fn record_set_extended(
    set: RecordSet,
    record_type: RecordType,
    texts: Seq<Seq<char>>,
) -> Result<RecordSet, RdataError>
    decreases texts.len(),
{
    if texts.len() == 0 {
        Ok(set)
    } else {
        match record_set_extended(set, record_type, texts.drop_last()) {
            Err(e) => Err(e),
            Ok(earlier) => match rdata_of(record_type, texts.last()) {
                Err(e) => Err(e),
                Ok(rdata) => Ok(record_set_adding(earlier, rdata)),
            },
        }
    }
}

/// The record set that name, class, record type, time to live and texts
/// determine: made empty with name, type and time to live, then given its
/// class, then extended by the data in the order of the texts.
pub open spec fn record_set_built(
    name: Name,
    class: DNSClass,
    record_type: RecordType,
    ttl: u32,
    texts: Seq<Seq<char>>,
) -> Result<RecordSet, RdataError> {
    record_set_extended(
        record_set_in_class(new_record_set(name, record_type, ttl), class),
        record_type,
        texts,
    )
}

/// A record set comes out exactly when every text stands for record data.
pub proof fn lemma_extended_ok_iff_all_valid(
    set: RecordSet,
    record_type: RecordType,
    texts: Seq<Seq<char>>,
)
    ensures
        record_set_extended(set, record_type, texts) is Ok <==> all_rdata_valid(
            record_type,
            texts,
        ),
    decreases texts.len(),
{
    if texts.len() > 0 {
        let earlier = texts.drop_last();
        lemma_extended_ok_iff_all_valid(set, record_type, earlier);
        if all_rdata_valid(record_type, texts) {
            assert forall|i: int| 0 <= i < earlier.len() implies (#[trigger] rdata_of(
                record_type,
                earlier[i],
            )) is Ok by {
                assert(earlier[i] == texts[i]);
            }
            assert(rdata_of(record_type, texts[texts.len() - 1]) is Ok);
        }
        if record_set_extended(set, record_type, texts) is Ok {
            assert forall|i: int| 0 <= i < texts.len() implies (#[trigger] rdata_of(
                record_type,
                texts[i],
            )) is Ok by {
                if i < earlier.len() {
                    assert(earlier[i] == texts[i]);
                }
            }
        }
    }
}

/// Once a text stands for no data, no later text changes the outcome.
proof fn lemma_extended_err_stays(
    set: RecordSet,
    record_type: RecordType,
    texts: Seq<Seq<char>>,
    upto: int,
)
    requires
        0 <= upto <= texts.len(),
        record_set_extended(set, record_type, texts.take(upto)) is Err,
    ensures
        record_set_extended(set, record_type, texts) == record_set_extended(
            set,
            record_type,
            texts.take(upto),
        ),
    decreases texts.len() - upto,
{
    if upto < texts.len() {
        assert(texts.take(upto + 1).drop_last() == texts.take(upto));
        lemma_extended_err_stays(set, record_type, texts, upto + 1);
    } else {
        assert(texts.take(upto) == texts);
    }
}

/// The error that comes out is that of the first text that stands for no
/// data, whatever follows it.
pub proof fn lemma_first_bad_text_decides(
    set: RecordSet,
    record_type: RecordType,
    texts: Seq<Seq<char>>,
    i: int,
)
    requires
        0 <= i < texts.len(),
        forall|j: int| 0 <= j < i ==> (#[trigger] rdata_of(record_type, texts[j])) is Ok,
        rdata_of(record_type, texts[i]) is Err,
    ensures
        record_set_extended(set, record_type, texts) == Err::<RecordSet, RdataError>(
            rdata_of(record_type, texts[i])->Err_0,
        ),
{
    let before = texts.take(i);
    assert forall|j: int| 0 <= j < before.len() implies (#[trigger] rdata_of(
        record_type,
        before[j],
    )) is Ok by {
        assert(before[j] == texts[j]);
    }
    lemma_extended_ok_iff_all_valid(set, record_type, before);
    assert(texts.take(i + 1).drop_last() == before);
    assert(texts.take(i + 1).last() == texts[i]);
    lemma_extended_err_stays(set, record_type, texts, i + 1);
}

/// Builds the record set of a request from the texts of its record data.
///
/// Each text is parsed as the record type's textual form. The first text
/// that is not such a form ends the work with its error, and no record set
/// comes out: there is no partial result.
pub fn record_set_from(
    name: Name,
    class: DNSClass,
    record_type: RecordType,
    ttl: u32,
    rdata: Vec<String>,
) -> (built: Result<RecordSet, RdataError>)
    ensures
        built == record_set_built(name, class, record_type, ttl, texts_of(rdata@)),
        built is Ok <==> all_rdata_valid(record_type, texts_of(rdata@)),
        built matches Ok(set) ==> {
            &&& record_set_name(set) == name
            &&& record_set_type(set) == record_type
            &&& record_set_class(set) == class
            &&& record_set_ttl(set) == ttl
        },
{
    let ghost texts = texts_of(rdata@);
    let mut set = RecordSet::with_ttl(name, record_type, ttl);
    set.set_dns_class(class);
    let ghost empty = set;
    let code = u16::from(record_type);
    proof {
        assert(texts.take(0).len() == 0);
        lemma_extended_ok_iff_all_valid(empty, record_type, texts);
    }
    let mut i: usize = 0;
    while i < rdata.len()
        invariant
            i <= rdata.len(),
            texts == texts_of(rdata@),
            texts.len() == rdata.len(),
            code == record_type_code(record_type),
            empty == record_set_in_class(new_record_set(name, record_type, ttl), class),
            record_set_extended(empty, record_type, texts) is Ok <==> all_rdata_valid(
                record_type,
                texts,
            ),
            record_set_extended(empty, record_type, texts.take(i as int)) == Ok::<
                RecordSet,
                RdataError,
            >(set),
            record_set_name(set) == name,
            record_set_type(set) == record_type,
            record_set_class(set) == class,
            record_set_ttl(set) == ttl,
        decreases rdata.len() - i,
    {
        let text = rdata[i].as_str();
        proof {
            assert(texts[i as int] == text@);
            assert(texts.take(i + 1).drop_last() == texts.take(i as int));
            assert(texts.take(i + 1).last() == texts[i as int]);
        }
        if !is_rdata_text_supported(code, text) {
            proof {
                lemma_extended_err_stays(empty, record_type, texts, i + 1);
            }
            return Err(RdataError::Unsupported);
        }
        match parse_rdata(record_type, text) {
            Err(_) => {
                proof {
                    lemma_extended_err_stays(empty, record_type, texts, i + 1);
                }
                return Err(RdataError::Invalid);
            },
            Ok(data) => {
                if data.to_record_type() != record_type {
                    proof {
                        lemma_extended_err_stays(empty, record_type, texts, i + 1);
                    }
                    return Err(RdataError::Invalid);
                }
                set.add_rdata(data);
            },
        }
        i = i + 1;
    }
    proof {
        assert(texts.take(i as int) == texts);
    }
    Ok(set)
}

} // verus!
