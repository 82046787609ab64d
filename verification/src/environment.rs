//! Folding the deployment's published outputs into the configuration the
//! service needs: the last entry under each known key wins.

use vstd::prelude::*;

verus! {

/// One key/value pair of the deployment's published outputs.
pub struct StackOutputsEntry {
    pub output_key: String,
    pub output_value: String,
}

/// The configuration drawn from the deployment outputs: the API endpoint and
/// the table name.
pub struct StackOutputs {
    pub api_url: String,
    pub table_name: String,
}

impl Default for StackOutputs {
    /// Both fields start empty.
    fn default() -> (s: Self)
        ensures
            s.api_url@ == Seq::<char>::empty(),
            s.table_name@ == Seq::<char>::empty(),
    {
        StackOutputs { api_url: String::new(), table_name: String::new() }
    }
}

/// The value of the last output under `key`, or empty if there is none.
pub open spec fn output_for(entries: Seq<StackOutputsEntry>, key: Seq<char>) -> Seq<char>
    decreases entries.len(),
{
    if entries.len() == 0 {
        Seq::empty()
    } else if entries.last().output_key@ == key {
        entries.last().output_value@
    } else {
        output_for(entries.drop_last(), key)
    }
}

/// Folds the outputs into the configuration: the last "API" entry names the
/// endpoint, the last "Table" entry names the table; a key that never occurs
/// leaves its field empty.
pub fn collect_stack_outputs(entries: &Vec<StackOutputsEntry>) -> (outs: StackOutputs)
    ensures
        outs.api_url@ == output_for(entries@, "API"@),
        outs.table_name@ == output_for(entries@, "Table"@),
{
    proof {
        reveal_strlit("API");
        reveal_strlit("Table");
        assert("API"@.len() == 3);
        assert("Table"@.len() == 5);
    }
    let table_key = String::from_str("Table");
    let api_key = String::from_str("API");
    let mut outs = StackOutputs::default();
    let n: usize = entries.len();
    let mut i: usize = 0;
    while i < n
        invariant
            i <= n,
            n == entries@.len(),
            table_key@ == "Table"@,
            api_key@ == "API"@,
            "Table"@ != "API"@,
            outs.api_url@ == output_for(entries@.take(i as int), "API"@),
            outs.table_name@ == output_for(entries@.take(i as int), "Table"@),
        decreases n - i,
    {
        let entry = &entries[i];
        if entry.output_key == table_key {
            outs.table_name = entry.output_value.clone();
        }
        if entry.output_key == api_key {
            outs.api_url = entry.output_value.clone();
        }
        proof {
            assert(entries@.take(i as int + 1).drop_last() =~= entries@.take(i as int));
            assert(entries@.take(i as int + 1).last() == entries@[i as int]);
        }
        i += 1;
    }
    proof {
        assert(entries@.take(n as int) =~= entries@);
    }
    outs
}

} // verus!
