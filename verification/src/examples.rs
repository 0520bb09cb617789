//! The built-in example datasets: the two-input logic gates AND, OR and
//! XOR, each with the recommended architecture for learning it.

use vstd::prelude::*;
use vstd::string::StringExecFns;
use crate::scalar::B_ONE;
use crate::text::str_eq;

verus! {

/// One registered dataset: a name, a human description, the recommended
/// layer sizes, and the paired training inputs and targets.
#[derive(Debug)]
pub struct Example {
    pub name: String,
    pub description: String,
    pub recommended_arch: Vec<usize>,
    pub inputs: Vec<Vec<u64>>,
    pub targets: Vec<Vec<u64>>,
}

/// The architecture every gate example recommends: two inputs, three
/// hidden neurons, one output.
pub open spec fn gate_arch_spec() -> Seq<usize> {
    seq![2usize, 3usize, 1usize]
}

/// The four input pairs of every gate example: the truth table of two
/// binary inputs, as the bit patterns of 0.0 and 1.0.
pub open spec fn gate_inputs_spec() -> Seq<Seq<u64>> {
    seq![seq![0u64, 0u64], seq![0u64, B_ONE], seq![B_ONE, 0u64], seq![B_ONE, B_ONE]]
}

/// The AND targets for the four input pairs.
pub open spec fn and_targets_spec() -> Seq<Seq<u64>> {
    seq![seq![0u64], seq![0u64], seq![0u64], seq![B_ONE]]
}

/// The OR targets for the four input pairs.
pub open spec fn or_targets_spec() -> Seq<Seq<u64>> {
    seq![seq![0u64], seq![B_ONE], seq![B_ONE], seq![B_ONE]]
}

/// The XOR targets for the four input pairs.
pub open spec fn xor_targets_spec() -> Seq<Seq<u64>> {
    seq![seq![0u64], seq![B_ONE], seq![B_ONE], seq![0u64]]
}

/// The target rows that belong to a gate name, where the name is
/// registered.
pub open spec fn targets_for(name: Seq<char>) -> Option<Seq<Seq<u64>>> {
    if name == "and"@ {
        Some(and_targets_spec())
    } else if name == "or"@ {
        Some(or_targets_spec())
    } else if name == "xor"@ {
        Some(xor_targets_spec())
    } else {
        None
    }
}

fn one(a: u64) -> (r: Vec<u64>)
    ensures
        r@ == seq![a],
{
    let mut v: Vec<u64> = Vec::new();
    v.push(a);
    proof {
        assert(v@ =~= seq![a]);
    }
    v
}

fn two(a: u64, b: u64) -> (r: Vec<u64>)
    ensures
        r@ == seq![a, b],
{
    let mut v: Vec<u64> = Vec::new();
    v.push(a);
    v.push(b);
    proof {
        assert(v@ =~= seq![a, b]);
    }
    v
}

fn gate_arch() -> (r: Vec<usize>)
    ensures
        r@ == gate_arch_spec(),
{
    let mut v: Vec<usize> = Vec::new();
    v.push(2);
    v.push(3);
    v.push(1);
    proof {
        assert(v@ =~= gate_arch_spec());
    }
    v
}

fn gate_inputs() -> (r: Vec<Vec<u64>>)
    ensures
        crate::network::rows_view(r@) == gate_inputs_spec(),
{
    let mut v: Vec<Vec<u64>> = Vec::new();
    v.push(two(0, 0));
    v.push(two(0, B_ONE));
    v.push(two(B_ONE, 0));
    v.push(two(B_ONE, B_ONE));
    proof {
        assert(crate::network::rows_view(v@) =~= gate_inputs_spec());
    }
    v
}

fn gate_targets(t0: u64, t1: u64, t2: u64, t3: u64) -> (r: Vec<Vec<u64>>)
    ensures
        crate::network::rows_view(r@) == seq![seq![t0], seq![t1], seq![t2], seq![t3]],
{
    let mut v: Vec<Vec<u64>> = Vec::new();
    v.push(one(t0));
    v.push(one(t1));
    v.push(one(t2));
    v.push(one(t3));
    proof {
        assert(crate::network::rows_view(v@) =~= seq![seq![t0], seq![t1], seq![t2], seq![t3]]);
    }
    v
}

/// The names of the registered examples, in their canonical order.
pub fn list_examples() -> (r: Vec<String>)
    ensures
        r@.len() == 3,
        r@[0]@ == "and"@,
        r@[1]@ == "or"@,
        r@[2]@ == "xor"@,
{
    let mut v: Vec<String> = Vec::new();
    v.push(String::from_str("and"));
    v.push(String::from_str("or"));
    v.push(String::from_str("xor"));
    v
}

/// Looks a dataset up by name. A registered name gives its gate, with
/// the recommended architecture, the four truth-table input pairs, and
/// the matching target rows; an unregistered name gives `None`.
pub fn get_example(name: &str) -> (r: Option<Example>)
    ensures
        r is Some <==> targets_for(name@) is Some,
        r matches Some(e) ==> {
            &&& e.name@ == name@
            &&& e.recommended_arch@ == gate_arch_spec()
            &&& crate::network::rows_view(e.inputs@) == gate_inputs_spec()
            &&& Some(crate::network::rows_view(e.targets@)) == targets_for(name@)
        },
{
    if str_eq(name, "and") {
        Some(Example {
            name: String::from_str(name),
            description: String::from_str("Logical AND of two binary inputs"),
            recommended_arch: gate_arch(),
            inputs: gate_inputs(),
            targets: gate_targets(0, 0, 0, B_ONE),
        })
    } else if str_eq(name, "or") {
        Some(Example {
            name: String::from_str(name),
            description: String::from_str("Logical OR of two binary inputs"),
            recommended_arch: gate_arch(),
            inputs: gate_inputs(),
            targets: gate_targets(0, B_ONE, B_ONE, B_ONE),
        })
    } else if str_eq(name, "xor") {
        Some(Example {
            name: String::from_str(name),
            description: String::from_str("Exclusive OR of two binary inputs"),
            recommended_arch: gate_arch(),
            inputs: gate_inputs(),
            targets: gate_targets(0, B_ONE, B_ONE, 0),
        })
    } else {
        None
    }
}

} // verus!
