//! The words by which a record names its kind of transaction.

use crate::types::TxType;
use vstd::prelude::*;

verus! {

/// The word that names a kind of transaction in a record, as ASCII bytes:
/// `deposit`, `withdraw`, `dispute`, `resolve`, `chargeback`.
pub open spec fn tag_of(tp: TxType) -> Seq<u8> {
    match tp {
        TxType::Deposit => seq![100u8, 101u8, 112u8, 111u8, 115u8, 105u8, 116u8],
        TxType::Withdrawal => seq![119u8, 105u8, 116u8, 104u8, 100u8, 114u8, 97u8, 119u8],
        TxType::Dispute => seq![100u8, 105u8, 115u8, 112u8, 117u8, 116u8, 101u8],
        TxType::Resolve => seq![114u8, 101u8, 115u8, 111u8, 108u8, 118u8, 101u8],
        TxType::Chargeback => seq![99u8, 104u8, 97u8, 114u8, 103u8, 101u8, 98u8, 97u8, 99u8, 107u8],
    }
}

/// Whether two byte strings are the same.
pub fn same_bytes(a: &[u8], b: &[u8]) -> (r: bool)
    ensures
        r == (a@ == b@),
{
    if a.len() != b.len() {
        return false;
    }
    let mut i: usize = 0;
    while i < a.len()
        invariant
            a.len() == b.len(),
            i <= a.len(),
            forall|j: int| 0 <= j < i ==> a@[j] == b@[j],
        decreases a.len() - i,
    {
        if a[i] != b[i] {
            return false;
        }
        i = i + 1;
    }
    assert(a@ =~= b@);
    true
}

/// The kind of transaction that a record's type word names: `deposit`,
/// `withdraw`, `dispute`, `resolve` or `chargeback`, letter for letter. Any
/// other word names none.
pub fn kind_of_tag(tag: &[u8]) -> (r: Option<TxType>)
    ensures
        match r {
            Some(tp) => tag@ == tag_of(tp),
            None => forall|tp: TxType| tag@ != #[trigger] tag_of(tp),
        },
{
    let deposit: [u8; 7] = [100u8, 101u8, 112u8, 111u8, 115u8, 105u8, 116u8];
    let withdraw: [u8; 8] = [119u8, 105u8, 116u8, 104u8, 100u8, 114u8, 97u8, 119u8];
    let dispute: [u8; 7] = [100u8, 105u8, 115u8, 112u8, 117u8, 116u8, 101u8];
    let resolve: [u8; 7] = [114u8, 101u8, 115u8, 111u8, 108u8, 118u8, 101u8];
    let chargeback: [u8; 10] = [99u8, 104u8, 97u8, 114u8, 103u8, 101u8, 98u8, 97u8, 99u8, 107u8];
    assert(deposit@ =~= tag_of(TxType::Deposit));
    assert(withdraw@ =~= tag_of(TxType::Withdrawal));
    assert(dispute@ =~= tag_of(TxType::Dispute));
    assert(resolve@ =~= tag_of(TxType::Resolve));
    assert(chargeback@ =~= tag_of(TxType::Chargeback));
    if same_bytes(tag, deposit.as_slice()) {
        Some(TxType::Deposit)
    } else if same_bytes(tag, withdraw.as_slice()) {
        Some(TxType::Withdrawal)
    } else if same_bytes(tag, dispute.as_slice()) {
        Some(TxType::Dispute)
    } else if same_bytes(tag, resolve.as_slice()) {
        Some(TxType::Resolve)
    } else if same_bytes(tag, chargeback.as_slice()) {
        Some(TxType::Chargeback)
    } else {
        None
    }
}

} // verus!
