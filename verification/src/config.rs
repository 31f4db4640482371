//! Profile resolution: looking a requested profile up in a parsed
//! configuration document and validating its two required fields.
use vstd::prelude::*;

use crate::document::ConfigDocument;
use crate::document::EntryModel;
use crate::document::TopEntry;
use crate::document::find_item;
use crate::document::lemma_doc_model_contains;
use crate::document::lemma_doc_model_index;
use crate::document::parse_model;
use crate::table::table_get;

verus! {

/// Why a profile could not be resolved.
#[derive(Debug, PartialEq)]
pub enum Error {
    /// The configuration text could not be parsed at all.
    MalformedDocument,
    /// The requested profile is not a section of the document; carries the
    /// requested name.
    NoProfileFound(String),
    /// The profile has no device-ARN field.
    NoMfaDeviceArnDefined,
    /// The profile has no delegate-profile field.
    NoAwsProfileDefined,
}

impl Error {
    /// The message shown to the user for this failure.
    pub open spec fn spec_message(&self) -> Seq<char> {
        match self {
            Error::MalformedDocument => "Malformed configuration file."@,
            Error::NoProfileFound(name) => "Profile \""@ + name@ + "\" not found"@,
            Error::NoMfaDeviceArnDefined => "No MFA device ARN defined."@,
            Error::NoAwsProfileDefined => "No AWS profile defined."@,
        }
    }

    pub fn message(&self) -> (r: String)
        ensures
            r@ == self.spec_message(),
    {
        match self {
            Error::MalformedDocument => String::from_str("Malformed configuration file."),
            Error::NoProfileFound(name) => {
                let mut s = String::from_str("Profile \"");
                s.append(name.as_str());
                s.append("\" not found");
                s
            },
            Error::NoMfaDeviceArnDefined => String::from_str("No MFA device ARN defined."),
            Error::NoAwsProfileDefined => String::from_str("No AWS profile defined."),
        }
    }
}

/// The two required fields of a resolved profile.
#[derive(Debug, PartialEq)]
pub struct Config {
    /// Identifier of the MFA/security-token device.
    pub mfa_device_arn: String,
    /// Name of the underlying cloud-CLI profile to delegate to.
    pub aws_cli_profile_name: String,
}

/// The section a document maps a profile name to, when that name is
/// present and is a section rather than a plain string entry.
pub open spec fn profile_section(m: Map<Seq<char>, EntryModel>, p: Seq<char>) -> Option<
    Map<Seq<char>, Seq<char>>,
> {
    if m.contains_key(p) && m[p] is Section {
        Some(m[p]->Section_0)
    } else {
        Option::None
    }
}

/// The device-ARN field of a section. The canonical key is
/// `mfa-device-arn`; `serial-number` is accepted as a deprecated spelling
/// and consulted only when the canonical key is absent.
pub open spec fn device_arn_of(sec: Map<Seq<char>, Seq<char>>) -> Option<Seq<char>> {
    if sec.contains_key("mfa-device-arn"@) {
        Some(sec["mfa-device-arn"@])
    } else if sec.contains_key("serial-number"@) {
        Some(sec["serial-number"@])
    } else {
        Option::None
    }
}

/// The delegate-profile field of a section. The canonical key is
/// `aws-cli-profile`; `aws-profile` is accepted as a deprecated spelling
/// and consulted only when the canonical key is absent.
pub open spec fn delegate_profile_of(sec: Map<Seq<char>, Seq<char>>) -> Option<Seq<char>> {
    if sec.contains_key("aws-cli-profile"@) {
        Some(sec["aws-cli-profile"@])
    } else if sec.contains_key("aws-profile"@) {
        Some(sec["aws-profile"@])
    } else {
        Option::None
    }
}

/// Everything resolution promises: the profile must exist as a section,
/// then the device ARN is checked, then the delegate profile; the first
/// missing piece decides the error, and on success the fields carry the
/// source values verbatim.
pub open spec fn resolve_post(
    m: Map<Seq<char>, EntryModel>,
    p: Seq<char>,
    r: Result<Config, Error>,
) -> bool {
    match profile_section(m, p) {
        Option::None => r matches Err(Error::NoProfileFound(n)) && n@ == p,
        Option::Some(sec) => match device_arn_of(sec) {
            Option::None => r == Err::<Config, Error>(Error::NoMfaDeviceArnDefined),
            Option::Some(arn) => match delegate_profile_of(sec) {
                Option::None => r == Err::<Config, Error>(Error::NoAwsProfileDefined),
                Option::Some(del) => r matches Ok(c) && c.mfa_device_arn@ == arn
                    && c.aws_cli_profile_name@ == del,
            },
        },
    }
}

/// Looks `profile` up in `doc` and validates its required fields.
pub fn resolve(doc: &ConfigDocument, profile: &String) -> (r: Result<Config, Error>)
    requires
        doc.wf(),
    ensures
        resolve_post(doc@, profile@, r),
{
    let sec = match find_item(&doc.items, profile) {
        Some(i) => {
            proof {
                lemma_doc_model_index(doc.items@, i as int);
            }
            match &doc.items[i].entry {
                TopEntry::Section(t) => t,
                TopEntry::Leaf(_) => {
                    return Err(Error::NoProfileFound(profile.clone()));
                },
            }
        },
        None => {
            proof {
                lemma_doc_model_contains(doc.items@, profile@);
            }
            return Err(Error::NoProfileFound(profile.clone()));
        },
    };
    let mfa_device_arn = match table_get(sec, &String::from_str("mfa-device-arn")) {
        Some(v) => v.clone(),
        None => match table_get(sec, &String::from_str("serial-number")) {
            Some(v) => v.clone(),
            None => {
                return Err(Error::NoMfaDeviceArnDefined);
            },
        },
    };
    let aws_cli_profile_name = match table_get(sec, &String::from_str("aws-cli-profile")) {
        Some(v) => v.clone(),
        None => match table_get(sec, &String::from_str("aws-profile")) {
            Some(v) => v.clone(),
            None => {
                return Err(Error::NoAwsProfileDefined);
            },
        },
    };
    Ok(Config { mfa_device_arn, aws_cli_profile_name })
}

impl Config {
    /// Parses `content` and resolves `profile` in it, in one step.
    pub fn for_profile(profile: String, content: String) -> (r: Result<Config, Error>)
        ensures
            match parse_model(content@) {
                Option::None => r == Err::<Config, Error>(Error::MalformedDocument),
                Option::Some(m) => resolve_post(m, profile@, r),
            },
    {
        let doc = match ConfigDocument::parse(content.as_str()) {
            Ok(d) => d,
            Err(_) => {
                return Err(Error::MalformedDocument);
            },
        };
        resolve(&doc, &profile)
    }
}

} // verus!
