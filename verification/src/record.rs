use vstd::prelude::*;
use vstd::string::StringExecFns;
use crate::fees::{priority_fee, spec_priority_fee, spec_transaction_fee, transaction_fee};
use crate::message::Transaction;
use crate::scan::{scan_compute_budget, spec_compute_budget};

verus! {

/// The base58 rendering of a byte string, as the canonical signature
/// encoding produces it.
pub uninterp spec fn base58_of(b: Seq<u8>) -> Seq<char>;

/// Relies on solana_sdk::signature::Signature's Display impl: the base58
/// rendering of the 64 signature bytes, a function of those bytes alone.
#[verifier::external_body]
fn signature_base58(sig: &Vec<u8>) -> (r: String)
    requires
        sig@.len() == 64,
    ensures
        r@ == base58_of(sig@),
{
    let bytes: [u8; 64] = sig.as_slice().try_into().unwrap();
    solana_sdk::signature::Signature::from(bytes).to_string()
}

/// The decimal digit for a value below ten.
pub open spec fn digit_char(d: int) -> char {
    if d == 0 {
        '0'
    } else if d == 1 {
        '1'
    } else if d == 2 {
        '2'
    } else if d == 3 {
        '3'
    } else if d == 4 {
        '4'
    } else if d == 5 {
        '5'
    } else if d == 6 {
        '6'
    } else if d == 7 {
        '7'
    } else if d == 8 {
        '8'
    } else {
        '9'
    }
}

/// The decimal rendering of a non-negative integer, most significant
/// digit first, with no leading zeros except for zero itself.
pub open spec fn dec_str(n: int) -> Seq<char>
    decreases n,
{
    if n < 10 {
        seq![digit_char(n)]
    } else {
        dec_str(n / 10).push(digit_char(n % 10))
    }
}

/// The one-character string for a decimal digit.
fn digit_str(d: u64) -> (r: &'static str)
    requires
        d < 10,
    ensures
        r@ == seq![digit_char(d as int)],
{
    if d == 0 {
        proof {
            reveal_strlit("0");
            assert("0"@ =~= seq![digit_char(0)]);
        }
        "0"
    } else if d == 1 {
        proof {
            reveal_strlit("1");
            assert("1"@ =~= seq![digit_char(1)]);
        }
        "1"
    } else if d == 2 {
        proof {
            reveal_strlit("2");
            assert("2"@ =~= seq![digit_char(2)]);
        }
        "2"
    } else if d == 3 {
        proof {
            reveal_strlit("3");
            assert("3"@ =~= seq![digit_char(3)]);
        }
        "3"
    } else if d == 4 {
        proof {
            reveal_strlit("4");
            assert("4"@ =~= seq![digit_char(4)]);
        }
        "4"
    } else if d == 5 {
        proof {
            reveal_strlit("5");
            assert("5"@ =~= seq![digit_char(5)]);
        }
        "5"
    } else if d == 6 {
        proof {
            reveal_strlit("6");
            assert("6"@ =~= seq![digit_char(6)]);
        }
        "6"
    } else if d == 7 {
        proof {
            reveal_strlit("7");
            assert("7"@ =~= seq![digit_char(7)]);
        }
        "7"
    } else if d == 8 {
        proof {
            reveal_strlit("8");
            assert("8"@ =~= seq![digit_char(8)]);
        }
        "8"
    } else {
        proof {
            reveal_strlit("9");
            assert("9"@ =~= seq![digit_char(9)]);
        }
        "9"
    }
}

/// Render an unsigned integer in decimal.
pub fn u64_to_dec(n: u64) -> (r: String)
    ensures
        r@ == dec_str(n as int),
    decreases n,
{
    if n < 10 {
        let mut s = String::new();
        s.append(digit_str(n));
        proof {
            assert(s@ =~= dec_str(n as int));
        }
        s
    } else {
        let mut s = u64_to_dec(n / 10);
        s.append(digit_str(n % 10));
        proof {
            assert(s@ =~= dec_str(n as int));
        }
        s
    }
}

/// The error a caller sees on input this core rejects.
#[derive(Debug, PartialEq, Eq, Structural)]
pub enum TxError {
    /// The transaction carries no signature at all.
    InvalidTransaction,
}

/// One telemetry record derived from a transaction: the first signature in
/// its canonical encoding, the decoded budget values, and the fees.
#[derive(Debug)]
pub struct TxRecord {
    pub signature: String,
    pub compute_unit_limit: u32,
    pub compute_unit_price: u64,
    pub priority_fee: u64,
    pub transaction_fee: u64,
}

/// `rec` is exactly the record that `tx` yields with the budget program
/// identified by `target`.
pub open spec fn record_of(tx: Transaction, target: Seq<u8>, rec: TxRecord) -> bool {
    let budget = spec_compute_budget(
        tx.message.body().account_keys@,
        tx.message.body().instructions@,
        target,
    );
    &&& rec.signature@ == base58_of(tx.signatures@[0]@)
    &&& rec.compute_unit_limit == budget.0
    &&& rec.compute_unit_price == budget.1
    &&& rec.priority_fee == spec_priority_fee(budget.0, budget.1)
    &&& rec.transaction_fee == spec_transaction_fee(
        rec.priority_fee,
        tx.message.body().header.num_required_signatures as u64,
    )
}

/// Decode a transaction's compute-budget instructions and derive its fees.
/// A transaction without any signature is rejected, never indexed.
pub fn analyze_transaction(tx: &Transaction, target: &Vec<u8>) -> (r: Result<TxRecord, TxError>)
    requires
        tx.wf(),
    ensures
        r is Ok <==> tx.signatures@.len() > 0,
        r matches Ok(rec) ==> record_of(*tx, target@, rec),
        r matches Err(e) ==> e == TxError::InvalidTransaction,
{
    if tx.signatures.len() == 0 {
        return Err(TxError::InvalidTransaction);
    }
    let signature = signature_base58(&tx.signatures[0]);
    let (compute_unit_limit, compute_unit_price) = scan_compute_budget(&tx.message, target);
    let fee = priority_fee(compute_unit_limit, compute_unit_price);
    let total = transaction_fee(fee, tx.message.num_required_signatures() as u64);
    Ok(
        TxRecord {
            signature,
            compute_unit_limit,
            compute_unit_price,
            priority_fee: fee,
            transaction_fee: total,
        },
    )
}

/// Format the single telemetry line: `txlog,<signature>,<compute unit
/// limit>,<transaction fee>,<ratio>,<ip>`. The ratio and the peer address
/// arrive already rendered, since neither is an integer of this core.
pub fn format_record(rec: &TxRecord, ratio: &str, ip: &str) -> (r: String)
    ensures
        r@ == "txlog,"@ + rec.signature@ + ","@ + dec_str(rec.compute_unit_limit as int) + ","@
            + dec_str(rec.transaction_fee as int) + ","@ + ratio@ + ","@ + ip@,
{
    let mut line = String::new();
    line.append("txlog,");
    line.append(rec.signature.as_str());
    line.append(",");
    let limit_s = u64_to_dec(rec.compute_unit_limit as u64);
    line.append(limit_s.as_str());
    line.append(",");
    let fee_s = u64_to_dec(rec.transaction_fee);
    line.append(fee_s.as_str());
    line.append(",");
    line.append(ratio);
    line.append(",");
    line.append(ip);
    proof {
        assert(line@ =~= "txlog,"@ + rec.signature@ + ","@ + dec_str(
            rec.compute_unit_limit as int,
        ) + ","@ + dec_str(rec.transaction_fee as int) + ","@ + ratio@ + ","@ + ip@);
    }
    line
}

} // verus!
