//! Deployment-level settings of the pipeline.

use vstd::prelude::*;
use vstd::string::*;

verus! {

/// The settings a deployment chooses. They are read once per run and are
/// the same for every stage of it.
#[derive(Clone, Debug, PartialEq, Eq)]
pub struct Config {
    /// The content types that count as supported images. An object with any
    /// other content type is refused.
    pub allowed_types: Vec<String>,
    /// The bucket that results are written to. Where it is absent, the
    /// destination bucket is named after the source bucket.
    pub dest_bucket: Option<String>,
    /// What is put in front of the source key to form the destination key.
    /// Empty where results keep the key of their source.
    pub key_prefix: String,
    /// Whether the source object is removed once the result is stored.
    pub delete_source: bool,
}

/// Mathematical model of a [`Config`].
pub struct ConfigModel {
    pub allowed_types: Seq<Seq<char>>,
    pub dest_bucket: Option<Seq<char>>,
    pub key_prefix: Seq<char>,
    pub delete_source: bool,
}

impl View for Config {
    type V = ConfigModel;

    open spec fn view(&self) -> ConfigModel {
        ConfigModel {
            allowed_types: self.allowed_types.deep_view(),
            dest_bucket: self.dest_bucket.deep_view(),
            key_prefix: self.key_prefix@,
            delete_source: self.delete_source,
        }
    }
}

/// The content types accepted by default: the two registered ones for JPEG
/// and PNG, and `image/jpg`, which is not registered but common.
pub open spec fn standard_types() -> Seq<Seq<char>> {
    seq!["image/jpeg"@, "image/jpg"@, "image/png"@]
}

impl Config {
    /// The default settings: the standard content types, results under the
    /// key of their source, and the source removed afterwards. `dest_bucket`
    /// is the destination override, if the deployment sets one.
    pub fn standard(dest_bucket: Option<String>) -> (config: Config)
        ensures
            config@ == (ConfigModel {
                allowed_types: standard_types(),
                dest_bucket: dest_bucket.deep_view(),
                key_prefix: Seq::empty(),
                delete_source: true,
            }),
    {
        let mut allowed_types: Vec<String> = Vec::new();
        allowed_types.push(String::from_str("image/jpeg"));
        allowed_types.push(String::from_str("image/jpg"));
        allowed_types.push(String::from_str("image/png"));
        assert(allowed_types.deep_view() =~= standard_types());
        Config { allowed_types, dest_bucket, key_prefix: String::new(), delete_source: true }
    }

    /// Whether `content_type` is one of the supported content types.
    pub fn supports(&self, content_type: &String) -> (supported: bool)
        ensures
            supported == self@.allowed_types.contains(content_type@),
    {
        let mut at: usize = 0;
        while at < self.allowed_types.len()
            invariant
                at <= self.allowed_types.len(),
                forall|i: int| 0 <= i < at ==> self@.allowed_types[i] != content_type@,
            decreases self.allowed_types.len() - at,
        {
            if self.allowed_types[at] == *content_type {
                assert(self@.allowed_types[at as int] == content_type@);
                return true;
            }
            at += 1;
        }
        false
    }
}

} // verus!
