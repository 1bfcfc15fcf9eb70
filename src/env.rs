//! Environment arguments of a run, given as `KEY=VALUE`.

use vstd::prelude::*;
use crate::errors::EnvArgError;
use crate::text::{
    drop_chars, first_index, first_index_of, joined, lemma_first_index_absent, lemma_first_index_at,
    take_chars,
};

verus! {

/// The key and value of an environment argument, split at its first `=`;
/// `None` where there is no `=` or either side is empty.
pub open spec fn env_pair(arg: Seq<char>) -> Option<(Seq<char>, Seq<char>)> {
    let i = first_index(arg, '=');
    if i <= 0 || i == arg.len() - 1 {
        None
    } else {
        Some((arg.take(i), arg.skip(i + 1)))
    }
}

/// Whether a rejected argument is rejected for its empty value (it has an
/// `=` and nothing after the first one); any other rejection is for a
/// missing `=` or an empty key.
pub open spec fn env_value_missing(arg: Seq<char>) -> bool {
    let i = first_index(arg, '=');
    i >= 0 && i == arg.len() - 1
}

/// The error for the rejected argument `arg`.
pub open spec fn env_error_for(e: EnvArgError, arg: Seq<char>) -> bool {
    if env_value_missing(arg) {
        e matches EnvArgError::MissingValue { env_arg } && env_arg@ == arg
    } else {
        e matches EnvArgError::InvalidKeyValue { env_arg } && env_arg@ == arg
    }
}

/// The name of the form field that carries the environment variable `key`.
pub open spec fn env_field(key: Seq<char>) -> Seq<char> {
    "env_args["@ + key + "]"@
}

/// `KEY=VALUE` splits into `KEY` and `VALUE` at the first `=`, so the value
/// may hold further `=`; `KEY=` is rejected for its empty value; text
/// without `=` is rejected as malformed.
pub proof fn lemma_env_arg_law(key: Seq<char>, value: Seq<char>)
    requires
        key.len() > 0,
        forall|i: int| 0 <= i < key.len() ==> key[i] != '=',
    ensures
        value.len() > 0 ==> env_pair(key + seq!['='] + value) == Some((key, value)),
        env_pair(key + seq!['=']) is None,
        env_value_missing(key + seq!['=']),
        env_pair(key) is None,
        !env_value_missing(key),
{
    let full = key + seq!['='] + value;
    assert forall|j: int| 0 <= j < key.len() implies full[j] != '=' by {
        assert(full[j] == key[j]);
    }
    lemma_first_index_at(full, '=', key.len() as int);
    if value.len() > 0 {
        assert(full.take(key.len() as int) =~= key);
        assert(full.skip(key.len() as int + 1) =~= value);
    }
    let bare = key + seq!['='];
    assert forall|j: int| 0 <= j < key.len() implies bare[j] != '=' by {
        assert(bare[j] == key[j]);
    }
    lemma_first_index_at(bare, '=', key.len() as int);
    lemma_first_index_absent(key, '=');
}

/// Splits `KEY=VALUE` at its first `=`. An argument without `=`, with an
/// empty key or with an empty value is rejected.
pub fn parse_env_arg(arg: &str) -> (r: Result<(String, String), EnvArgError>)
    ensures
        match env_pair(arg@) {
            Some((k, v)) => r matches Ok((key, value)) && key@ == k && value@ == v,
            None => r matches Err(e) && env_error_for(e, arg@),
        },
{
    let len = arg.unicode_len();
    match first_index_of(arg, '=') {
        None => Err(EnvArgError::InvalidKeyValue { env_arg: arg.to_owned() }),
        Some(i) => {
            if i + 1 == len {
                Err(EnvArgError::MissingValue { env_arg: arg.to_owned() })
            } else if i == 0 {
                Err(EnvArgError::InvalidKeyValue { env_arg: arg.to_owned() })
            } else {
                Ok((take_chars(arg, i), drop_chars(arg, i + 1)))
            }
        },
    }
}

/// The form field name `env_args[<key>]`.
pub fn env_field_name(key: &str) -> (r: String)
    ensures
        r@ == env_field(key@),
{
    joined(&joined("env_args[", key), "]")
}

} // verus!
