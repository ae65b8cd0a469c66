//! Reading bundle `Info.plist` metadata: the App Group a bundle declares and
//! the activation metadata a camera system extension must carry.
use vstd::prelude::*;

use crate::text::{owned, str_eq};

verus! {

/// The `Info.plist` key under which bundles record their App Group.
pub const APP_GROUP_INFO_KEY: &'static str = "CameraManAppGroup";

/// A property-list value, as far as these checks read it: strings,
/// dictionaries (entries in file order) and everything else.
#[derive(Debug, PartialEq, Eq)]
pub enum InfoValue {
    String(String),
    Dictionary(Vec<InfoEntry>),
    Other,
}

/// One dictionary entry.
#[derive(Debug, PartialEq, Eq)]
pub struct InfoEntry {
    pub key: String,
    pub value: InfoValue,
}

/// The value of the first entry with `key`, if any.
pub open spec fn entry(entries: Seq<InfoEntry>, key: Seq<char>) -> Option<InfoValue>
    decreases entries.len(),
{
    if entries.len() == 0 {
        None
    } else if entries[0].key@ == key {
        Some(entries[0].value)
    } else {
        entry(entries.drop_first(), key)
    }
}

/// The value under `key` of a dictionary.
pub open spec fn lookup(value: InfoValue, key: Seq<char>) -> Option<InfoValue> {
    match value {
        InfoValue::Dictionary(entries) => entry(entries@, key),
        _ => None,
    }
}

/// The text of a string value.
pub open spec fn text_of(value: Option<InfoValue>) -> Option<Seq<char>> {
    match value {
        Some(InfoValue::String(s)) => Some(s@),
        _ => None,
    }
}

/// A non-empty string stored under `key` of a dictionary.
pub open spec fn nonempty_text(value: InfoValue, key: Seq<char>) -> Option<Seq<char>> {
    match text_of(lookup(value, key)) {
        Some(t) => if t.len() > 0 {
            Some(t)
        } else {
            None
        },
        None => None,
    }
}

/// The value under `key` of a dictionary.
pub fn info_lookup<'a>(value: &'a InfoValue, key: &str) -> (r: Option<&'a InfoValue>)
    ensures
        match lookup(*value, key@) {
            Some(v) => r matches Some(x) && *x == v,
            None => r is None,
        },
{
    match value {
        InfoValue::Dictionary(entries) => {
            let mut i: usize = 0;
            assert(entries@.skip(0) =~= entries@);
            assert(lookup(*value, key@) == entry(entries@, key@));
            while i < entries.len()
                invariant
                    i <= entries@.len(),
                    lookup(*value, key@) == entry(entries@, key@),
                    entry(entries@, key@) == entry(entries@.skip(i as int), key@),
                decreases entries@.len() - i,
            {
                assert(entries@.skip(i as int).drop_first() =~= entries@.skip(i + 1));
                assert(entries@.skip(i as int)[0] == entries@[i as int]);
                if str_eq(entries[i].key.as_str(), key) {
                    assert(entry(entries@.skip(i as int), key@) == Some(entries@[i as int].value));
                    return Some(&entries[i].value);
                }
                i = i + 1;
            }
            None
        },
        _ => None,
    }
}

fn text<'a>(value: Option<&'a InfoValue>) -> (r: Option<&'a String>)
    ensures
        match value {
            Some(v) => text_of(Some(*v)) matches Some(t) ==> (r matches Some(s) && s@ == t),
            None => true,
        },
        text_of(
            match value {
                Some(v) => Some(*v),
                None => None,
            },
        ) is None ==> r is None,
{
    match value {
        Some(InfoValue::String(s)) => Some(s),
        _ => None,
    }
}

/// The App Group a bundle's `Info.plist` declares, when it is a non-empty
/// string.
pub fn application_group_from_info(info: &InfoValue) -> (r: Option<String>)
    ensures
        match nonempty_text(*info, APP_GROUP_INFO_KEY@) {
            Some(t) => r matches Some(s) && s@ == t,
            None => r is None,
        },
{
    match text(info_lookup(info, APP_GROUP_INFO_KEY)) {
        Some(group) => {
            if group.as_str().as_bytes().len() == 0 {
                proof {
                    lemma_empty_bytes(group@);
                }
                None
            } else {
                proof {
                    lemma_empty_bytes(group@);
                }
                Some(owned(group.as_str()))
            }
        },
        None => None,
    }
}

proof fn lemma_empty_bytes(s: Seq<char>)
    ensures
        (vstd::utf8::encode_utf8(s).len() == 0) == (s.len() == 0),
{
    if s.len() > 0 {
        assert(vstd::utf8::encode_scalar(s[0] as u32).len() >= 1);
    }
}

/// What a camera system extension's `Info.plist` must declare.
#[derive(Debug, Clone, PartialEq, Eq)]
pub struct ExtensionActivationMetadata {
    pub mach_service_name: String,
    pub usage_description: String,
    pub application_group: Option<String>,
}

pub open spec fn not_dictionary_text() -> Seq<char> {
    "Unavailable: extension Info.plist is not a dictionary"@
}

pub open spec fn missing_mach_service_text() -> Seq<char> {
    "Unavailable: extension Mach service is missing"@
}

pub open spec fn missing_usage_text() -> Seq<char> {
    "Unavailable: extension usage description is missing"@
}

/// The Mach service the extension declares under `CMIOExtension`.
pub open spec fn mach_service_of(info: InfoValue) -> Option<Seq<char>> {
    match lookup(info, "CMIOExtension"@) {
        Some(cmio) => nonempty_text(cmio, "CMIOExtensionMachServiceName"@),
        None => None,
    }
}

/// Reads activation metadata: a non-empty Mach service name and a usage
/// description are required, the App Group is optional.
pub fn extension_activation_metadata_from_value(info: &InfoValue) -> (r: Result<
    ExtensionActivationMetadata,
    String,
>)
    ensures
        !(info is Dictionary) ==> (r matches Err(m) && m@ == not_dictionary_text()),
        info is Dictionary && mach_service_of(*info) is None ==> (r matches Err(m) && m@
            == missing_mach_service_text()),
        info is Dictionary && mach_service_of(*info) is Some && text_of(
            lookup(*info, "NSSystemExtensionUsageDescription"@),
        ) is None ==> (r matches Err(m) && m@ == missing_usage_text()),
        r is Ok <==> (info is Dictionary && mach_service_of(*info) is Some && text_of(
            lookup(*info, "NSSystemExtensionUsageDescription"@),
        ) is Some),
        r matches Ok(m) ==> (Some(m.mach_service_name@) == mach_service_of(*info) && Some(
            m.usage_description@,
        ) == text_of(lookup(*info, "NSSystemExtensionUsageDescription"@)) && match nonempty_text(
            *info,
            APP_GROUP_INFO_KEY@,
        ) {
            Some(t) => m.application_group matches Some(g) && g@ == t,
            None => m.application_group is None,
        }),
{
    if !matches!(info, InfoValue::Dictionary(_)) {
        return Err(owned("Unavailable: extension Info.plist is not a dictionary"));
    }
    let mach_service_name = match info_lookup(info, "CMIOExtension") {
        Some(cmio) => match text(info_lookup(cmio, "CMIOExtensionMachServiceName")) {
            Some(name) => {
                proof {
                    lemma_empty_bytes(name@);
                }
                if name.as_str().as_bytes().len() == 0 {
                    return Err(owned("Unavailable: extension Mach service is missing"));
                }
                owned(name.as_str())
            },
            None => {
                return Err(owned("Unavailable: extension Mach service is missing"));
            },
        },
        None => {
            return Err(owned("Unavailable: extension Mach service is missing"));
        },
    };
    let usage_description = match text(info_lookup(info, "NSSystemExtensionUsageDescription")) {
        Some(usage) => owned(usage.as_str()),
        None => {
            return Err(owned("Unavailable: extension usage description is missing"));
        },
    };
    let application_group = application_group_from_info(info);
    Ok(ExtensionActivationMetadata { mach_service_name, usage_description, application_group })
}

/// Why a string entry could not be read.
#[derive(Debug, Clone, Copy, PartialEq, Eq, Structural)]
pub enum InfoLookupError {
    /// The property list is not a dictionary.
    NotDictionary,
    /// The key holds something other than a string.
    NotString,
}

/// The string under `key`: `Ok(None)` when absent, an error when the file is
/// not a dictionary or the entry is not a string.
pub fn optional_string_entry(info: &InfoValue, key: &str) -> (r: Result<Option<String>, InfoLookupError>)
    ensures
        !(info is Dictionary) ==> r == Err::<Option<String>, InfoLookupError>(
            InfoLookupError::NotDictionary,
        ),
        info is Dictionary ==> match lookup(*info, key@) {
            None => r == Ok::<Option<String>, InfoLookupError>(None),
            Some(InfoValue::String(s)) => r matches Ok(Some(t)) && t@ == s@,
            Some(_) => r == Err::<Option<String>, InfoLookupError>(InfoLookupError::NotString),
        },
{
    if !matches!(info, InfoValue::Dictionary(_)) {
        return Err(InfoLookupError::NotDictionary);
    }
    match info_lookup(info, key) {
        Some(InfoValue::String(s)) => Ok(Some(owned(s.as_str()))),
        Some(_) => Err(InfoLookupError::NotString),
        None => Ok(None),
    }
}

} // verus!
