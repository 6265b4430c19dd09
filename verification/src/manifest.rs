//! Manifest parsing and device resolution.
//!
//! Two JSON documents drive an update run: the device manifest, a map from
//! device id to base URL, and the per-device partition manifest, a list of
//! entries naming a partition, an image file, and the expected checksum.
//! Entries missing any of the three fields are skipped, not an error; the
//! number of skipped entries is reported so the leniency stays observable.

use vstd::prelude::*;

use crate::json::{
    json_of, obj_clone, obj_get, obj_model, parse_json, value_as_array, value_as_object,
    value_as_str, value_model, Jv,
};
use crate::UpdateError;

verus! {

/// One valid element of a partition manifest.
#[derive(Debug)]
pub struct PartitionEntry {
    /// Device path of the partition to verify and possibly overwrite.
    pub partition: String,
    /// Image file name, fetched relative to the device's base URL.
    pub file: String,
    /// Expected lower-case hex digest of the partition's correct contents.
    pub checksum: String,
}

/// Model of a partition entry: its three fields as character sequences.
pub ghost struct EntryModel {
    pub partition: Seq<char>,
    pub file: Seq<char>,
    pub checksum: Seq<char>,
}

impl View for PartitionEntry {
    type V = EntryModel;

    open spec fn view(&self) -> EntryModel {
        EntryModel {
            partition: self.partition@,
            file: self.file@,
            checksum: self.checksum@,
        }
    }
}

impl PartitionEntry {
    /// A field-by-field copy of the entry.
    pub fn duplicate(&self) -> (r: PartitionEntry)
        ensures
            r@ == self@,
    {
        PartitionEntry {
            partition: self.partition.clone(),
            file: self.file.clone(),
            checksum: self.checksum.clone(),
        }
    }
}

/// The device manifest: a JSON object mapping device ids to base URLs.
#[derive(Debug)]
pub struct DeviceManifest {
    devices: serde_json::Map<String, serde_json::Value>,
}

impl View for DeviceManifest {
    type V = Map<Seq<char>, Jv>;

    closed spec fn view(&self) -> Map<Seq<char>, Jv> {
        obj_model(self.devices)
    }
}

/// The device map held by a device-manifest document: present exactly when
/// the document is an object whose `"devices"` field is an object.
pub open spec fn device_map_of(doc: Jv) -> Option<Map<Seq<char>, Jv>> {
    if doc is Obj && doc->Obj_0.contains_key("devices"@) && doc->Obj_0["devices"@] is Obj {
        Some(doc->Obj_0["devices"@]->Obj_0)
    } else {
        None
    }
}

/// Parses the body of the device manifest document.  Fails with
/// `ParseError` on invalid JSON and with `MalformedManifest` on valid JSON
/// that is not an object with an object field `"devices"`.
pub fn parse_device_manifest(body: &str) -> (r: Result<DeviceManifest, UpdateError>)
    ensures
        r is Ok <==> (json_of(body@) matches Some(doc) && device_map_of(doc) is Some),
        r matches Ok(m) ==> m@ == device_map_of(json_of(body@)->Some_0)->Some_0,
        r matches Err(e) ==> (e == UpdateError::ParseError <==> json_of(body@) is None),
        r matches Err(e) ==> (e == UpdateError::ParseError || e == UpdateError::MalformedManifest),
{
    let doc = match parse_json(body) {
        Ok(v) => v,
        Err(_) => { return Err(UpdateError::ParseError) },
    };
    let top = match value_as_object(&doc) {
        Some(o) => o,
        None => { return Err(UpdateError::MalformedManifest) },
    };
    let devices_val = match obj_get(top, "devices") {
        Some(v) => v,
        None => { return Err(UpdateError::MalformedManifest) },
    };
    match value_as_object(devices_val) {
        Some(d) => Ok(DeviceManifest { devices: obj_clone(d) }),
        None => Err(UpdateError::MalformedManifest),
    }
}

/// The base URL a device map resolves a device id to: `UnknownDevice` when
/// the id is not a key, the mapped string when it is, `MalformedManifest`
/// when the id maps to something other than a string.
pub open spec fn resolved_url(devices: Map<Seq<char>, Jv>, device: Seq<char>) -> Result<
    Seq<char>,
    UpdateError,
> {
    if !devices.contains_key(device) {
        Err(UpdateError::UnknownDevice)
    } else if devices[device] is Str {
        Ok(devices[device]->Str_0)
    } else {
        Err(UpdateError::MalformedManifest)
    }
}

/// Looks a device id up in the device manifest.
pub fn resolve_base_url(manifest: &DeviceManifest, device: &str) -> (r: Result<
    String,
    UpdateError,
>)
    ensures
        match (r, resolved_url(manifest@, device@)) {
            (Ok(u), Ok(s)) => u@ == s,
            (Err(a), Err(b)) => a == b,
            _ => false,
        },
{
    let v = match obj_get(&manifest.devices, device) {
        Some(v) => v,
        None => { return Err(UpdateError::UnknownDevice) },
    };
    match value_as_str(v) {
        Some(s) => Ok(s.to_owned()),
        None => Err(UpdateError::MalformedManifest),
    }
}

/// What resolving a device id against a device-manifest document yields,
/// from the raw body text: the composition of parsing and lookup.
pub open spec fn device_url_of(body: Seq<char>, device: Seq<char>) -> Result<
    Seq<char>,
    UpdateError,
> {
    if json_of(body) is None {
        Err(UpdateError::ParseError)
    } else if device_map_of(json_of(body)->Some_0) is None {
        Err(UpdateError::MalformedManifest)
    } else {
        resolved_url(device_map_of(json_of(body)->Some_0)->Some_0, device)
    }
}

/// Resolves a device id to its base URL, given the body of the device
/// manifest document.  An unknown device id yields `UnknownDevice`; the
/// caller then never fetches a partition manifest.
pub fn get_device_url(body: &str, device: &str) -> (r: Result<String, UpdateError>)
    ensures
        match (r, device_url_of(body@, device@)) {
            (Ok(u), Ok(s)) => u@ == s,
            (Err(a), Err(b)) => a == b,
            _ => false,
        },
{
    let manifest = match parse_device_manifest(body) {
        Ok(m) => m,
        Err(e) => { return Err(e) },
    };
    resolve_base_url(&manifest, device)
}

/// The fields of one partition-manifest element, when it is an object
/// carrying string fields `"partition"`, `"file"` and `"checksum"`.
pub open spec fn entry_fields_of(j: Jv) -> Option<EntryModel> {
    if j is Obj && j->Obj_0.contains_key("partition"@) && j->Obj_0["partition"@] is Str
        && j->Obj_0.contains_key("file"@) && j->Obj_0["file"@] is Str && j->Obj_0.contains_key(
        "checksum"@,
    ) && j->Obj_0["checksum"@] is Str {
        Some(
            EntryModel {
                partition: j->Obj_0["partition"@]->Str_0,
                file: j->Obj_0["file"@]->Str_0,
                checksum: j->Obj_0["checksum"@]->Str_0,
            },
        )
    } else {
        None
    }
}

/// The valid entries of a partition array, in order; elements without the
/// three string fields contribute nothing.
pub open spec fn entries_of(arr: Seq<Jv>) -> Seq<EntryModel>
    decreases arr.len(),
{
    if arr.len() == 0 {
        Seq::empty()
    } else {
        entries_of(arr.drop_last()) + (match entry_fields_of(arr.last()) {
            Some(e) => seq![e],
            None => Seq::empty(),
        })
    }
}

/// The partition array held by a partition-manifest document: present
/// exactly when the document is an object whose `"partitions"` field is an
/// array.
pub open spec fn partition_array_of(doc: Jv) -> Option<Seq<Jv>> {
    if doc is Obj && doc->Obj_0.contains_key("partitions"@) && doc->Obj_0["partitions"@] is Arr {
        Some(doc->Obj_0["partitions"@]->Arr_0)
    } else {
        None
    }
}

/// A parsed partition manifest: the valid entries in manifest order, and
/// how many elements were skipped for missing fields.
#[derive(Debug)]
pub struct PartitionManifest {
    /// Entries carrying all three required fields, in document order.
    pub entries: Vec<PartitionEntry>,
    /// Number of array elements dropped for lacking a required field.
    pub skipped: usize,
}

fn parse_entry(v: &serde_json::Value) -> (r: Option<PartitionEntry>)
    ensures
        r is Some <==> entry_fields_of(value_model(*v)) is Some,
        r matches Some(e) ==> e@ == entry_fields_of(value_model(*v))->Some_0,
{
    let obj = match value_as_object(v) {
        Some(o) => o,
        None => { return None },
    };
    let partition = match obj_get(obj, "partition") {
        Some(f) => match value_as_str(f) {
            Some(s) => s,
            None => { return None },
        },
        None => { return None },
    };
    let file = match obj_get(obj, "file") {
        Some(f) => match value_as_str(f) {
            Some(s) => s,
            None => { return None },
        },
        None => { return None },
    };
    let checksum = match obj_get(obj, "checksum") {
        Some(f) => match value_as_str(f) {
            Some(s) => s,
            None => { return None },
        },
        None => { return None },
    };
    Some(
        PartitionEntry {
            partition: partition.to_owned(),
            file: file.to_owned(),
            checksum: checksum.to_owned(),
        },
    )
}

/// Parses the body of a partition manifest document.  Fails with
/// `ParseError` on invalid JSON and with `MalformedManifest` on valid JSON
/// that is not an object with an array field `"partitions"`.  Elements of
/// the array missing `"partition"`, `"file"` or `"checksum"` are excluded
/// from the entries and counted as skipped.
pub fn parse_partition_manifest(body: &str) -> (r: Result<PartitionManifest, UpdateError>)
    ensures
        r is Ok <==> (json_of(body@) matches Some(doc) && partition_array_of(doc) is Some),
        r matches Ok(m) ==> {
            let arr = partition_array_of(json_of(body@)->Some_0)->Some_0;
            let valid = entries_of(arr);
            &&& m.entries@.len() == valid.len()
            &&& (forall|i: int| 0 <= i < valid.len() ==> m.entries@[i]@ == valid[i])
            &&& m.skipped + m.entries@.len() == arr.len()
        },
        r matches Err(e) ==> (e == UpdateError::ParseError <==> json_of(body@) is None),
        r matches Err(e) ==> (e == UpdateError::ParseError || e == UpdateError::MalformedManifest),
{
    let doc = match parse_json(body) {
        Ok(v) => v,
        Err(_) => { return Err(UpdateError::ParseError) },
    };
    let top = match value_as_object(&doc) {
        Some(o) => o,
        None => { return Err(UpdateError::MalformedManifest) },
    };
    let parts_val = match obj_get(top, "partitions") {
        Some(v) => v,
        None => { return Err(UpdateError::MalformedManifest) },
    };
    let arr = match value_as_array(parts_val) {
        Some(a) => a,
        None => { return Err(UpdateError::MalformedManifest) },
    };
    let ghost varr = arr@.map_values(|x: serde_json::Value| value_model(x));
    let mut entries: Vec<PartitionEntry> = Vec::new();
    let mut skipped: usize = 0;
    let n = arr.len();
    let mut i: usize = 0;
    while i < n
        invariant
            n == arr@.len(),
            varr == arr@.map_values(|x: serde_json::Value| value_model(x)),
            i <= n,
            entries@.len() == entries_of(varr.take(i as int)).len(),
            forall|k: int|
                0 <= k < entries@.len() ==> entries@[k]@ == entries_of(varr.take(i as int))[k],
            skipped + entries@.len() == i,
        decreases n - i,
    {
        proof {
            assert(varr.take(i + 1 as int).drop_last() =~= varr.take(i as int));
            assert(varr.take(i + 1 as int).last() == varr[i as int]);
            assert(varr[i as int] == value_model(arr@[i as int]));
        }
        match parse_entry(&arr[i]) {
            Some(e) => {
                entries.push(e);
            },
            None => {
                skipped = skipped + 1;
            },
        }
        i = i + 1;
    }
    proof {
        assert(varr.take(n as int) =~= varr);
    }
    Ok(PartitionManifest { entries, skipped })
}

} // verus!
