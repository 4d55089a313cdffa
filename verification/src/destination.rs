//! Where a result is written: a pure rule on the source bucket and key.

use crate::config::{Config, ConfigModel};
use vstd::prelude::*;
use vstd::string::*;

verus! {

/// The bucket for results from `source`: the configured override, or the
/// source bucket's name followed by `-resized`.
pub open spec fn destination_bucket_of(config: ConfigModel, source: Seq<char>) -> Seq<char> {
    match config.dest_bucket {
        Some(name) => name,
        None => source + "-resized"@,
    }
}

/// The key for the result of the object at `key`: the configured prefix,
/// then the source key.
pub open spec fn destination_key_of(config: ConfigModel, key: Seq<char>) -> Seq<char> {
    config.key_prefix + key
}

/// The bucket that the result of an object from `source` is written to.
pub fn destination_bucket(config: &Config, source: &str) -> (name: String)
    ensures
        name@ == destination_bucket_of(config@, source@),
{
    match &config.dest_bucket {
        Some(name) => name.clone(),
        None => {
            let mut name = String::from_str(source);
            name.append("-resized");
            name
        },
    }
}

/// The key that the result of the object at `key` is written under.
pub fn destination_key(config: &Config, key: &str) -> (name: String)
    ensures
        name@ == destination_key_of(config@, key@),
{
    let mut name = config.key_prefix.clone();
    name.append(key);
    name
}

} // verus!
