use vstd::prelude::*;

use crate::errors::StartError;

verus! {

/// serde_json's JSON value: the opaque payload of one recorded block.
#[verifier::external_type_specification]
#[verifier::external_body]
pub struct ExJsonValue(serde_json::Value);

/// serde_json's parse error.
#[verifier::external_type_specification]
#[verifier::external_body]
pub struct ExJsonError(serde_json::Error);

/// Relies on serde_json::Value's derived Clone: a clone of a JSON value is
/// equal to the value cloned.
pub assume_specification [ <serde_json::Value as Clone>::clone ](v: &serde_json::Value) -> (r:
    serde_json::Value)
    ensures
        r == *v,
;

/// One entry of a recorded block sequence: an opaque JSON document that is
/// handed on, unread, to the synchronization service.
#[derive(Debug, PartialEq)]
pub struct BlockRecord {
    pub payload: serde_json::Value,
}

impl BlockRecord {
    /// Wrap one parsed document as a recorded block.
    pub fn new(payload: serde_json::Value) -> (r: BlockRecord)
        ensures
            r.payload == payload,
    {
        BlockRecord { payload }
    }
}

impl Clone for BlockRecord {
    fn clone(&self) -> (r: Self)
        ensures
            r == *self,
    {
        let r = BlockRecord { payload: self.payload.clone() };
        proof {
            assert(r == *self);
        }
        r
    }
}

/// Whether the text parses as one JSON array of values.
pub uninterp spec fn json_parses(s: Seq<char>) -> bool;

/// The values of the JSON array the text writes, in order.
pub uninterp spec fn json_values(s: Seq<char>) -> Seq<serde_json::Value>;

/// Relies on serde_json::from_str::<Vec<Value>>: parses the text as one
/// JSON array and returns its elements in order, or the parser's error.
/// Both the outcome and the elements are functions of the text alone.
#[verifier::external_body]
fn parse_json_values(text: &str) -> (r: Result<Vec<serde_json::Value>, serde_json::Error>)
    ensures
        r is Ok <==> json_parses(text@),
        r matches Ok(v) ==> v@ == json_values(text@),
{
    serde_json::from_str::<Vec<serde_json::Value>>(text)
}

/// Parse a recorded block sequence: the text must be one JSON array, and
/// each of its values becomes the payload of one record, in file order.
/// Any parse failure is a replay error. (An empty array parses: rejecting
/// it is the replay step's job.)
pub fn parse_block_records(text: &str) -> (r: Result<Vec<BlockRecord>, StartError>)
    ensures
        r is Ok <==> json_parses(text@),
        r matches Err(e) ==> e == StartError::ReplayError,
        r matches Ok(records) ==> records@.len() == json_values(text@).len() && (forall|i: int|
            0 <= i < records@.len() ==> #[trigger] records@[i].payload == json_values(text@)[i]),
{
    match parse_json_values(text) {
        Err(_) => Err(StartError::ReplayError),
        Ok(values) => {
            let mut records: Vec<BlockRecord> = Vec::new();
            let mut i: usize = 0;
            while i < values.len()
                invariant
                    i <= values@.len(),
                    records@.len() == i,
                    values@ == json_values(text@),
                    forall|j: int|
                        0 <= j < i ==> #[trigger] records@[j].payload == values@[j],
                decreases values@.len() - i,
            {
                records.push(BlockRecord { payload: values[i].clone() });
                i = i + 1;
            }
            Ok(records)
        },
    }
}

} // verus!
