//! Policy-registry planning: each function computes the exact ordered
//! sequence of registry operations a policy write consists of.
//! Performing them against a live registry is a platform concern and
//! lives outside the library.

use vstd::prelude::*;
use vstd::string::StringExecFns;
use crate::text::{dec_digits, u64_dec_string};

verus! {

/// One operation against the policy registry, under the local-machine
/// hive.
#[derive(Clone, Debug, PartialEq, Eq)]
pub enum RegistryOp {
    /// Create the key if needed and set an integer value.
    SetDword { path: String, name: String, value: u32 },
    /// Create the key if needed and set a string value.
    SetString { path: String, name: String, value: String },
    /// Delete the subkey and everything under it, ignoring absence.
    ClearSubkey { path: String },
}

/// The mathematical value of a [`RegistryOp`].
pub ghost enum RegistryOpV {
    SetDword { path: Seq<char>, name: Seq<char>, value: u32 },
    SetString { path: Seq<char>, name: Seq<char>, value: Seq<char> },
    ClearSubkey { path: Seq<char> },
}

impl View for RegistryOp {
    type V = RegistryOpV;

    open spec fn view(&self) -> RegistryOpV {
        match self {
            RegistryOp::SetDword { path, name, value } => RegistryOpV::SetDword {
                path: path@,
                name: name@,
                value: *value,
            },
            RegistryOp::SetString { path, name, value } => RegistryOpV::SetString {
                path: path@,
                name: name@,
                value: value@,
            },
            RegistryOp::ClearSubkey { path } => RegistryOpV::ClearSubkey { path: path@ },
        }
    }
}

impl DeepView for RegistryOp {
    type V = RegistryOpV;

    open spec fn deep_view(&self) -> RegistryOpV {
        self.view()
    }
}

/// Plans an integer policy value: create the key, set the value.
pub fn set_dword_policy(key_path: &str, name: &str, value: u32) -> (ops: Vec<RegistryOp>)
    ensures
        ops.deep_view() == seq![
            RegistryOpV::SetDword { path: key_path@, name: name@, value },
        ],
{
    let mut ops: Vec<RegistryOp> = Vec::new();
    ops.push(
        RegistryOp::SetDword { path: key_path.to_owned(), name: name.to_owned(), value },
    );
    proof {
        assert(ops.deep_view() =~= seq![
            RegistryOpV::SetDword { path: key_path@, name: name@, value },
        ]);
    }
    ops
}

/// Plans a string policy value: create the key, set the value.
pub fn set_string_policy(key_path: &str, name: &str, value: &str) -> (ops: Vec<RegistryOp>)
    ensures
        ops.deep_view() == seq![
            RegistryOpV::SetString { path: key_path@, name: name@, value: value@ },
        ],
{
    let mut ops: Vec<RegistryOp> = Vec::new();
    ops.push(
        RegistryOp::SetString {
            path: key_path.to_owned(),
            name: name.to_owned(),
            value: value.to_owned(),
        },
    );
    proof {
        assert(ops.deep_view() =~= seq![
            RegistryOpV::SetString { path: key_path@, name: name@, value: value@ },
        ]);
    }
    ops
}

/// The full path of the list subkey.
pub open spec fn list_subkey_path(base: Seq<char>, subkey: Seq<char>) -> Seq<char> {
    base + "\\"@ + subkey
}

/// The value-setting operations of an ordered string list: one string
/// value per entry, named by its one-based position.
pub open spec fn list_value_ops(path: Seq<char>, values: Seq<Seq<char>>) -> Seq<RegistryOpV>
    decreases values.len(),
{
    if values.len() == 0 {
        Seq::empty()
    } else {
        list_value_ops(path, values.drop_last()) + seq![
            RegistryOpV::SetString {
                path,
                name: dec_digits(values.len() as nat),
                value: values.last(),
            },
        ]
    }
}

/// The whole plan of an ordered string-list policy: clear the subkey so
/// stale entries cannot survive, then write every value in order.
pub open spec fn string_list_policy_ops(
    base: Seq<char>,
    subkey: Seq<char>,
    values: Seq<Seq<char>>,
) -> Seq<RegistryOpV> {
    seq![RegistryOpV::ClearSubkey { path: list_subkey_path(base, subkey) }] + list_value_ops(
        list_subkey_path(base, subkey),
        values,
    )
}

/// Plans an ordered string-list policy under `base_key_path\subkey_name`.
pub fn set_string_list_policy(base_key_path: &str, subkey_name: &str, values: &Vec<String>) -> (ops:
    Vec<RegistryOp>)
    requires
        values@.len() < usize::MAX,
    ensures
        ops.deep_view() == string_list_policy_ops(base_key_path@, subkey_name@, values.deep_view()),
{
    let mut full_path = base_key_path.to_owned();
    full_path.append("\\");
    full_path.append(subkey_name);
    let ghost path = list_subkey_path(base_key_path@, subkey_name@);
    proof {
        assert(full_path@ =~= path);
    }
    let mut ops: Vec<RegistryOp> = Vec::new();
    ops.push(RegistryOp::ClearSubkey { path: full_path.clone() });
    let n = values.len();
    let mut i: usize = 0;
    proof {
        assert(values.deep_view().take(0) =~= Seq::<Seq<char>>::empty());
        assert(ops.deep_view() =~= seq![RegistryOpV::ClearSubkey { path }] + list_value_ops(
            path,
            values.deep_view().take(0),
        ));
    }
    while i < n
        invariant
            i <= n,
            n == values@.len(),
            n < usize::MAX,
            full_path@ == path,
            ops.deep_view() == seq![RegistryOpV::ClearSubkey { path }] + list_value_ops(
                path,
                values.deep_view().take(i as int),
            ),
        decreases n - i,
    {
        let name = u64_dec_string((i + 1) as u64);
        let ghost seen = ops.deep_view();
        ops.push(
            RegistryOp::SetString {
                path: full_path.clone(),
                name,
                value: values[i].clone(),
            },
        );
        proof {
            let dv = values.deep_view();
            assert(dv.take(i as int + 1).drop_last() =~= dv.take(i as int));
            assert(dv.take(i as int + 1).last() == dv[i as int]);
            assert(ops.deep_view() =~= seen.push(
                RegistryOpV::SetString { path, name: dec_digits((i + 1) as nat), value: dv[i as int] },
            ));
            assert(ops.deep_view() =~= seq![RegistryOpV::ClearSubkey { path }] + list_value_ops(
                path,
                dv.take(i as int + 1),
            ));
        }
        i += 1;
    }
    proof {
        assert(values.deep_view().take(n as int) =~= values.deep_view());
    }
    ops
}

} // verus!
