//! The structural description of a submission, and keyword matchers
//! over it.
//!
//! An external static analyzer of the submission's source produces this
//! description: the declared data structures (each with named fields),
//! the declared persistent account types (same shape), and the declared
//! callable operations (each with a name). The dispatcher only reads it;
//! every predicate over it is verified here.

use vstd::prelude::*;

use crate::text::{name_has_keyword, spec_name_has_keyword};

verus! {

/// A named field of a declared structure or account type.
pub struct FieldInfo {
    /// The field's declared name.
    pub name: String,
}

/// A declared data structure or persistent account type.
pub struct StructInfo {
    /// The type's declared name.
    pub name: String,
    /// Its declared fields, in order.
    pub fields: Vec<FieldInfo>,
}

/// A declared callable operation.
pub struct InstructionInfo {
    /// The operation's declared name.
    pub name: String,
}

/// The structural description of a submission.
pub struct ProgramInfo {
    /// The declared data structures.
    pub structs: Vec<StructInfo>,
    /// The declared persistent account types.
    pub accounts: Vec<StructInfo>,
    /// The declared callable operations.
    pub instructions: Vec<InstructionInfo>,
}

/// Whether some declared type's name matches the keyword.
pub open spec fn spec_any_name_matches(items: Seq<StructInfo>, kw: Seq<char>) -> bool {
    exists|i: int| 0 <= i < items.len() && spec_name_has_keyword(items[i].name@, kw)
}

/// Whether some field of some declared type matches the keyword.
pub open spec fn spec_any_field_matches(items: Seq<StructInfo>, kw: Seq<char>) -> bool {
    exists|i: int, j: int|
        0 <= i < items.len() && 0 <= j < items[i].fields@.len() && spec_name_has_keyword(
            items[i].fields@[j].name@,
            kw,
        )
}

/// Whether some declared operation's name matches the keyword.
pub open spec fn spec_any_instruction_matches(items: Seq<InstructionInfo>, kw: Seq<char>) -> bool {
    exists|i: int| 0 <= i < items.len() && spec_name_has_keyword(items[i].name@, kw)
}

/// Case-insensitive keyword match over declared type names.
pub fn any_name_matches(items: &Vec<StructInfo>, kw: &str) -> (r: bool)
    ensures
        r == spec_any_name_matches(items@, kw@),
{
    let n = items.len();
    let mut i: usize = 0;
    while i < n
        invariant
            0 <= i <= n,
            n == items@.len(),
            forall|k: int| 0 <= k < i ==> !spec_name_has_keyword(items@[k].name@, kw@),
        decreases n - i,
    {
        if name_has_keyword(items[i].name.as_str(), kw) {
            return true;
        }
        i += 1;
    }
    false
}

/// Whether some field of one declared type matches the keyword.
fn fields_match(item: &StructInfo, kw: &str) -> (r: bool)
    ensures
        r == exists|j: int| 0 <= j < item.fields@.len() && spec_name_has_keyword(
            item.fields@[j].name@,
            kw@,
        ),
{
    let n = item.fields.len();
    let mut j: usize = 0;
    while j < n
        invariant
            0 <= j <= n,
            n == item.fields@.len(),
            forall|k: int| 0 <= k < j ==> !spec_name_has_keyword(item.fields@[k].name@, kw@),
        decreases n - j,
    {
        if name_has_keyword(item.fields[j].name.as_str(), kw) {
            return true;
        }
        j += 1;
    }
    false
}

/// Case-insensitive keyword match over the fields of declared types.
pub fn any_field_matches(items: &Vec<StructInfo>, kw: &str) -> (r: bool)
    ensures
        r == spec_any_field_matches(items@, kw@),
{
    let n = items.len();
    let mut i: usize = 0;
    while i < n
        invariant
            0 <= i <= n,
            n == items@.len(),
            forall|k: int, j: int|
                0 <= k < i && 0 <= j < items@[k].fields@.len() ==> !spec_name_has_keyword(
                    items@[k].fields@[j].name@,
                    kw@,
                ),
        decreases n - i,
    {
        if fields_match(&items[i], kw) {
            return true;
        }
        i += 1;
    }
    false
}

/// Case-insensitive keyword match over declared operation names.
pub fn any_instruction_matches(items: &Vec<InstructionInfo>, kw: &str) -> (r: bool)
    ensures
        r == spec_any_instruction_matches(items@, kw@),
{
    let n = items.len();
    let mut i: usize = 0;
    while i < n
        invariant
            0 <= i <= n,
            n == items@.len(),
            forall|k: int| 0 <= k < i ==> !spec_name_has_keyword(items@[k].name@, kw@),
        decreases n - i,
    {
        if name_has_keyword(items[i].name.as_str(), kw) {
            return true;
        }
        i += 1;
    }
    false
}

/// Whether an operation name names a core lending action.
pub open spec fn spec_is_lending_op(name: Seq<char>) -> bool {
    spec_name_has_keyword(name, "borrow"@) || spec_name_has_keyword(name, "repay"@)
        || spec_name_has_keyword(name, "lend"@)
}

/// How many declared operations name a core lending action.
pub open spec fn spec_lending_op_count(items: Seq<InstructionInfo>) -> int
    decreases items.len(),
{
    if items.len() == 0 {
        0
    } else {
        spec_lending_op_count(items.drop_last()) + if spec_is_lending_op(items.last().name@) {
            1int
        } else {
            0int
        }
    }
}

/// Count the declared operations that name a core lending action.
pub fn count_lending_ops(items: &Vec<InstructionInfo>) -> (r: usize)
    ensures
        r == spec_lending_op_count(items@),
{
    let n = items.len();
    let mut count: usize = 0;
    let mut i: usize = 0;
    proof {
        assert(items@.subrange(0, 0) =~= Seq::<InstructionInfo>::empty());
    }
    while i < n
        invariant
            0 <= i <= n,
            n == items@.len(),
            count == spec_lending_op_count(items@.subrange(0, i as int)),
            count <= i,
        decreases n - i,
    {
        let name = items[i].name.as_str();
        let is_op = name_has_keyword(name, "borrow") || name_has_keyword(name, "repay")
            || name_has_keyword(name, "lend");
        proof {
            assert(items@.subrange(0, i + 1).drop_last() =~= items@.subrange(0, i as int));
            assert(items@.subrange(0, i + 1).last() == items@[i as int]);
        }
        if is_op {
            count += 1;
        }
        i += 1;
    }
    proof {
        assert(items@.subrange(0, n as int) =~= items@);
    }
    count
}

} // verus!
