//! The mount probe: what the mount enumerator reports, filtered by one field.

use vstd::hash_map::StringHashMap;
use vstd::prelude::*;

use crate::error::DeviceError;
use crate::json::{
    get_member, items_view, json_document, lemma_array_view, lemma_object_view, member_value,
    members_view, parse_json, JsonModel, JsonValue,
};
use crate::text::{concat, decoded, str_eq, string_from_utf8};

verus! {

/// Key of the mount point in a record of the enumerator.
pub const TARGET_KEY: &'static str = "target";

/// Key of the mounted device in a record of the enumerator.
pub const SOURCE_KEY: &'static str = "source";

/// Key of the filesystem type in a record of the enumerator.
pub const FSTYPE_KEY: &'static str = "fstype";

/// The directory under which device nodes live.
pub const DEV_DIR: &'static str = "/dev";

/// A mount point together with the filesystem type mounted there.
#[derive(Clone, Debug)]
pub struct DeviceMount {
    pub mount_path: String,
    pub fstype: String,
}

/// The mathematical value of a [`DeviceMount`].
pub ghost struct DeviceMountModel {
    pub mount_path: Seq<char>,
    pub fstype: Seq<char>,
}

impl View for DeviceMount {
    type V = DeviceMountModel;

    open spec fn view(&self) -> DeviceMountModel {
        DeviceMountModel { mount_path: self.mount_path@, fstype: self.fstype@ }
    }
}

/// One record of the enumerator as a map from field name to text.
pub type RecordModel = Map<Seq<char>, Seq<char>>;

/// A field of the enumerator's records and the value asked of it.
#[derive(Debug)]
pub struct FindmntFilter<'a> {
    pub key: &'a str,
    pub value: &'a str,
}

/// The part that the pattern `.*\[(/.*)\]` captures in its group when it is
/// searched for in `devpath`, if it occurs there: the text between the
/// brackets of a source such as `udev[/nvme0n1]`.
pub uninterp spec fn udev_capture(devpath: Seq<char>) -> Option<Seq<char>>;

/// Whether `text` holds a bracketed device part from `open` to `close`: a
/// `[`, directly after it a `/`, and a `]` further on in the same line.
pub open spec fn bracketed_at(text: Seq<char>, open: int, close: int) -> bool {
    &&& 0 <= open && open + 1 < close < text.len()
    &&& text[open] == '[' && text[open + 1] == '/' && text[close] == ']'
    &&& forall|k: int| open < k < close ==> text[k] != '\n'
}

/// Whether `text` holds exactly one bracketed device part, which begins at
/// `open` and ends the text, and no other bracket.
pub open spec fn plainly_bracketed(text: Seq<char>, open: int) -> bool {
    &&& bracketed_at(text, open, text.len() - 1)
    &&& forall|k: int| 0 <= k < text.len() && text[k] == '[' ==> k == open
    &&& forall|k: int| 0 <= k < text.len() && text[k] == ']' ==> k == text.len() - 1
}

/// Whether `path` lies under the device directory.
pub open spec fn has_dev_prefix(path: Seq<char>) -> bool {
    path.len() >= 5 && path.subrange(0, 5) == seq!['/', 'd', 'e', 'v', '/']
}

/// The device path that a captured part, or its absence, makes of `devpath`.
pub open spec fn device_path_of(devpath: Seq<char>, capture: Option<Seq<char>>) -> Seq<char> {
    match capture {
        Some(device) => DEV_DIR@ + device,
        None => devpath,
    }
}

/// The canonical form of a source as the enumerator reports it.
pub open spec fn normalized_source(devpath: Seq<char>) -> Seq<char> {
    device_path_of(devpath, udev_capture(devpath))
}

/// A source in canonical form: it is what normalization makes of some raw
/// source, and it lies under the device directory where that raw source
/// carried a bracketed part.
pub open spec fn well_normalized(source: Seq<char>) -> bool {
    exists|raw: Seq<char>|
        #[trigger] normalized_source(raw) == source && (udev_capture(raw).is_some()
            ==> has_dev_prefix(source))
}

/// Wraps `regex::Regex::captures` for the pattern `.*\[(?P<device>/.*)\]`
/// and hands out the text of the group `device`. The pattern matches where
/// the text holds a bracketed device part, and the group is then what
/// stands between the brackets of one. Of several, the pattern's greed
/// decides which.
#[verifier::external_body]
fn bracketed_device(devpath: &str) -> (r: Option<String>)
    ensures
        match r {
            Some(device) => udev_capture(devpath@) == Some(device@) && exists|
                open: int,
                close: int,
            |
                #[trigger] bracketed_at(devpath@, open, close) && device@ == devpath@.subrange(
                    open + 1,
                    close,
                ),
            None => udev_capture(devpath@).is_none() && forall|open: int, close: int|
                !#[trigger] bracketed_at(devpath@, open, close),
        },
{
    let re = regex::Regex::new(r".*\[(?P<device>/.*)\]").ok()?;
    let caps = re.captures(devpath)?;
    caps.name("device").map(|m| m.as_str().to_string())
}

/// The device path for a source whose bracketed part, if any, is `capture`.
pub fn device_path_from_capture(devpath: &str, capture: Option<&str>) -> (r: String)
    ensures
        r@ == device_path_of(
            devpath@,
            match capture {
                Some(device) => Some(device@),
                None => None,
            },
        ),
        capture matches Some(device) && device@.len() > 0 && device@[0] == '/' ==> has_dev_prefix(
            r@,
        ),
{
    match capture {
        Some(device) => {
            let r = concat(DEV_DIR, device);
            proof {
                reveal_strlit("/dev");
                if device@.len() > 0 && device@[0] == '/' {
                    assert(r@.subrange(0, 5) =~= seq!['/', 'd', 'e', 'v', '/']);
                }
            }
            r
        },
        None => String::from_str(devpath),
    }
}

/// Brings a source of the enumerator into the form `/dev/<name>`: the same
/// device is reported as `dev[/nvme0n1]`, `udev[/nvme0n1]`, `tmpfs[/nvme0n1]`
/// or `devtmpfs[/nvme0n1]` on different systems. A source without a bracketed
/// part is handed back unchanged.
pub fn convert_findmnt_devicepath(devpath: &str) -> (r: String)
    ensures
        r@ == normalized_source(devpath@),
        udev_capture(devpath@).is_some() ==> has_dev_prefix(r@),
        well_normalized(r@),
        forall|open: int| #[trigger]
            plainly_bracketed(devpath@, open) ==> r@ == DEV_DIR@ + devpath@.subrange(
                open + 1,
                devpath@.len() - 1,
            ),
{
    match bracketed_device(devpath) {
        Some(device) => device_path_from_capture(devpath, Some(device.as_str())),
        None => device_path_from_capture(devpath, None),
    }
}

/// Whether a filter on `key` with `value` accepts the node `found` under
/// that key: a string equal to the value, or, for the source, a string whose
/// canonical form is the value.
pub open spec fn filter_accepts(key: Seq<char>, value: Seq<char>, found: JsonModel) -> bool {
    match found {
        JsonModel::String(text) => text == value || (key == SOURCE_KEY@ && normalized_source(text)
            == value),
        _ => false,
    }
}

impl<'a> FindmntFilter<'a> {
    /// Whether this filter accepts the node that a record holds under the
    /// filter's key.
    pub fn eq(&self, value: &JsonValue) -> (r: bool)
        ensures
            r == filter_accepts(self.key@, self.value@, value@),
            forall|raw: Seq<char>, open: int|
                self.key@ == SOURCE_KEY@ && value@ == JsonModel::String(raw) && #[trigger]
                    plainly_bracketed(raw, open) && self.value@ == DEV_DIR@ + raw.subrange(
                    open + 1,
                    raw.len() - 1,
                ) ==> r,
    {
        match value.as_str() {
            Some(strvalue) => {
                if str_eq(self.key, SOURCE_KEY) {
                    let devpath = convert_findmnt_devicepath(strvalue);
                    if str_eq(devpath.as_str(), self.value) {
                        return true;
                    }
                }
                str_eq(self.value, strvalue)
            },
            None => false,
        }
    }
}

/// The text fields of a record, by name.
pub open spec fn record_view(record: Map<Seq<char>, String>) -> RecordModel {
    record.map_values(|text: String| text@)
}

/// The record that the members of an object make: each member whose value is
/// a string, the source in canonical form. Members with other values are
/// left out.
pub open spec fn record_of(members: Seq<(Seq<char>, JsonModel)>) -> RecordModel
    decreases members.len(),
{
    if members.len() == 0 {
        Map::empty()
    } else {
        let rest = record_of(members.drop_last());
        match members.last().1 {
            JsonModel::String(text) => rest.insert(
                members.last().0,
                if members.last().0 == SOURCE_KEY@ {
                    normalized_source(text)
                } else {
                    text
                },
            ),
            _ => rest,
        }
    }
}

/// A record whose source, where it has one, is in canonical form.
pub open spec fn source_normalized(record: RecordModel) -> bool {
    record.contains_key(SOURCE_KEY@) ==> well_normalized(record[SOURCE_KEY@])
}

/// Turns the members of an object into a record of strings. The source is
/// brought into the form `/dev/<name>`; a member whose value is no string is
/// dropped.
pub fn jsonmap_to_hashmap(json_map: &Vec<(String, JsonValue)>) -> (hmap: StringHashMap<String>)
    ensures
        record_view(hmap@) == record_of(members_view(json_map@)),
        source_normalized(record_view(hmap@)),
{
    let ghost all = members_view(json_map@);
    let mut hmap: StringHashMap<String> = StringHashMap::new();
    let mut i: usize = 0;
    while i < json_map.len()
        invariant
            i <= json_map.len(),
            all == members_view(json_map@),
            record_view(hmap@) == record_of(all.take(i as int)),
            source_normalized(record_view(hmap@)),
        decreases json_map.len() - i,
    {
        assert(all.take(i + 1).drop_last() =~= all.take(i as int));
        let key = &json_map[i].0;
        match json_map[i].1.as_str() {
            Some(strvalue) => {
                let text = if str_eq(key.as_str(), SOURCE_KEY) {
                    convert_findmnt_devicepath(strvalue)
                } else {
                    String::from_str(strvalue)
                };
                hmap.insert(key.clone(), text);
            },
            None => {},
        }
        i += 1;
    }
    assert(all.take(i as int) =~= all);
    hmap
}

/// The records in a list of hash maps.
pub open spec fn records_view(records: Seq<StringHashMap<String>>) -> Seq<RecordModel> {
    Seq::new(records.len(), |i: int| record_view(records[i]@))
}

/// The record that an object contributes itself: its own, where the value it
/// holds under the filter's key is accepted.
pub open spec fn own_match(
    members: Seq<(Seq<char>, JsonModel)>,
    key: Seq<char>,
    value: Seq<char>,
) -> Seq<RecordModel> {
    match member_value(members, key) {
        Some(found) => if filter_accepts(key, value, found) {
            seq![record_of(members)]
        } else {
            Seq::empty()
        },
        None => Seq::empty(),
    }
}

/// The records of all objects in the document `doc` that the filter accepts,
/// in the order in which a walk of the document meets them: an object before
/// what its arrays hold, the items of an array in turn. Only arrays are
/// walked into.
pub open spec fn matches_in(doc: JsonModel, key: Seq<char>, value: Seq<char>) -> Seq<RecordModel>
    decreases doc,
{
    match doc {
        JsonModel::Array(items) => matches_in_items(items, items.len(), key, value),
        JsonModel::Object(members) => own_match(members, key, value) + matches_in_members(
            members,
            members.len(),
            key,
            value,
        ),
        _ => Seq::empty(),
    }
}

/// The matches in the first `n` items of an array.
pub open spec fn matches_in_items(
    items: Seq<JsonModel>,
    n: nat,
    key: Seq<char>,
    value: Seq<char>,
) -> Seq<RecordModel>
    decreases items, n,
{
    if n == 0 || n > items.len() {
        Seq::empty()
    } else {
        matches_in_items(items, (n - 1) as nat, key, value) + matches_in(items[n - 1], key, value)
    }
}

/// The matches in the arrays among the first `n` members of an object.
pub open spec fn matches_in_members(
    members: Seq<(Seq<char>, JsonModel)>,
    n: nat,
    key: Seq<char>,
    value: Seq<char>,
) -> Seq<RecordModel>
    decreases members, n,
{
    if n == 0 || n > members.len() {
        Seq::empty()
    } else {
        let before = matches_in_members(members, (n - 1) as nat, key, value);
        if members[n - 1].1 is Array {
            before + matches_in(members[n - 1].1, key, value)
        } else {
            before
        }
    }
}

/// Whether all the records have their source in canonical form.
pub open spec fn sources_normalized(records: Seq<RecordModel>) -> bool {
    forall|i: int| 0 <= i < records.len() ==> source_normalized(#[trigger] records[i])
}

/// The view of a list of records goes along with `push`.
proof fn lemma_records_push(records: Seq<StringHashMap<String>>, record: StringHashMap<String>)
    ensures
        records_view(records.push(record)) == records_view(records).push(record_view(record@)),
{
}

/// Walks the document and appends to `results` the record of every object
/// that the filter accepts. An object is a mount point when it holds the
/// filter's key; it may hold arrays of further objects, under any key.
pub fn filter_findmnt(
    json_val: &JsonValue,
    filter: &FindmntFilter,
    results: &mut Vec<StringHashMap<String>>,
)
    ensures
        records_view(final(results)@) == records_view(old(results)@) + matches_in(
            json_val@,
            filter.key@,
            filter.value@,
        ),
        sources_normalized(records_view(old(results)@)) ==> sources_normalized(
            records_view(final(results)@),
        ),
    decreases json_val,
{
    let ghost start = records_view(results@);
    let ghost key = filter.key@;
    let ghost value = filter.value@;
    match json_val {
        JsonValue::Array(items) => {
            let ghost model = items_view(items@);
            proof {
                lemma_array_view(*items);
            }
            let mut i: usize = 0;
            while i < items.len()
                invariant
                    i <= items.len(),
                    *json_val == JsonValue::Array(*items),
                    model == items_view(items@),
                    key == filter.key@,
                    value == filter.value@,
                    records_view(results@) == start + matches_in_items(model, i as nat, key, value),
                    sources_normalized(start) ==> sources_normalized(records_view(results@)),
                decreases items.len() - i,
            {
                // the items are parts of the array: the walk goes down
                assert(json_val->Array_0 == *items);
                filter_findmnt(&items[i], filter, results);
                i += 1;
            }
        },
        JsonValue::Object(members) => {
            let ghost model = members_view(members@);
            proof {
                lemma_object_view(*members);
            }
            match get_member(members, filter.key) {
                Some(found) => {
                    if filter.eq(found) {
                        let record = jsonmap_to_hashmap(members);
                        proof {
                            lemma_records_push(results@, record);
                        }
                        results.push(record);
                    }
                },
                None => {},
            }
            let ghost own = records_view(results@);
            let mut i: usize = 0;
            while i < members.len()
                invariant
                    i <= members.len(),
                    *json_val == JsonValue::Object(*members),
                    model == members_view(members@),
                    key == filter.key@,
                    value == filter.value@,
                    records_view(results@) == own + matches_in_members(
                        model,
                        i as nat,
                        key,
                        value,
                    ),
                    sources_normalized(start) ==> sources_normalized(records_view(results@)),
                decreases members.len() - i,
            {
                if members[i].1.is_array() {
                    // the members are parts of the object: the walk goes down
                    assert(json_val->Object_0 == *members);
                    filter_findmnt(&members[i].1, filter, results);
                }
                i += 1;
            }
        },
        _ => {},
    }
}

/// Name of the mount enumerator.
pub const FINDMNT: &'static str = "findmnt";

/// The fields that the enumerator is asked for.
pub const FINDMNT_FIELDS: &'static str = "SOURCE,TARGET,FSTYPE";

/// The filesystem type given to a mount whose record names none.
pub const UNSPECIFIED_FSTYPE: &'static str = "unspecified";

/// Message of the error for a record that lacks the source.
pub const MISSING_SOURCE: &'static str = "missing source field";

/// Start of the message for a mount point with more than one device.
pub const MULTIPLE_DEVICES: &'static str = "multiple devices mounted at ";

/// What a finished command left behind.
#[derive(Clone, Debug)]
pub struct CommandOutput {
    /// Whether the command ended with exit status zero.
    pub success: bool,
    pub stdout: Vec<u8>,
    pub stderr: Vec<u8>,
}

/// The arguments with which the enumerator is run: JSON output of source,
/// target and filesystem type.
pub fn findmnt_args() -> (args: Vec<&'static str>)
    ensures
        args@.len() == 3,
        args@[0]@ == "-J"@,
        args@[1]@ == "-o"@,
        args@[2]@ == FINDMNT_FIELDS@,
{
    let mut args: Vec<&'static str> = Vec::new();
    args.push("-J");
    args.push("-o");
    args.push(FINDMNT_FIELDS);
    args
}

/// What a run of the enumerator answers to a filter: the accepted records of
/// the document on its standard output, or a message. The message is that of
/// the decoder or of the parser where the output is no text or no document,
/// and the standard error stream where the run failed.
pub open spec fn probe_records(
    key: Seq<char>,
    value: Seq<char>,
    success: bool,
    stdout: Seq<u8>,
    stderr: Seq<u8>,
) -> Result<Seq<RecordModel>, Seq<char>> {
    if success {
        match decoded(stdout) {
            Ok(text) => match json_document(text) {
                Ok(doc) => Ok(matches_in(doc, key, value)),
                Err(msg) => Err(msg),
            },
            Err(msg) => Err(msg),
        }
    } else {
        match decoded(stderr) {
            Ok(text) => Err(text),
            Err(msg) => Err(msg),
        }
    }
}

/// Reads what a run of the enumerator printed and returns the records that
/// the filter accepts, in document order.
pub fn findmnt(params: FindmntFilter, output: CommandOutput) -> (r: Result<
    Vec<StringHashMap<String>>,
    DeviceError,
>)
    ensures
        match r {
            Ok(records) => probe_records(
                params.key@,
                params.value@,
                output.success,
                output.stdout@,
                output.stderr@,
            ) == Ok::<Seq<RecordModel>, Seq<char>>(records_view(records@))
                && sources_normalized(records_view(records@)),
            Err(e) => probe_records(
                params.key@,
                params.value@,
                output.success,
                output.stdout@,
                output.stderr@,
            ) == Err::<Seq<RecordModel>, Seq<char>>(e@),
        },
{
    if output.success {
        let json_str = match string_from_utf8(output.stdout) {
            Ok(text) => text,
            Err(message) => {
                return Err(DeviceError { message });
            },
        };
        let json = match parse_json(json_str.as_str()) {
            Ok(doc) => doc,
            Err(message) => {
                return Err(DeviceError { message });
            },
        };
        let mut results: Vec<StringHashMap<String>> = Vec::new();
        filter_findmnt(&json, &params, &mut results);
        Ok(results)
    } else {
        match string_from_utf8(output.stderr) {
            Ok(message) => Err(DeviceError { message }),
            Err(message) => Err(DeviceError { message }),
        }
    }
}

/// The device that the accepted records name for one mount point.
pub open spec fn device_of(records: Seq<RecordModel>, mount_path: Seq<char>) -> Result<
    Option<Seq<char>>,
    Seq<char>,
> {
    if records.len() == 0 {
        Ok(None)
    } else if records.len() == 1 {
        if records[0].contains_key(SOURCE_KEY@) {
            Ok(Some(records[0][SOURCE_KEY@]))
        } else {
            Err(MISSING_SOURCE@)
        }
    } else {
        Err(MULTIPLE_DEVICES@ + mount_path)
    }
}

/// The device mounted at `mount_path` according to a run of the enumerator.
pub open spec fn device_for_mount(
    mount_path: Seq<char>,
    success: bool,
    stdout: Seq<u8>,
    stderr: Seq<u8>,
) -> Result<Option<Seq<char>>, Seq<char>> {
    match probe_records(TARGET_KEY@, mount_path, success, stdout, stderr) {
        Ok(records) => device_of(records, mount_path),
        Err(msg) => Err(msg),
    }
}

/// Picks the device out of the records that were accepted for a mount point:
/// none for no record, the source of a single record, and an error for a
/// record without source and for more than one record.
pub fn select_device(sources: &Vec<StringHashMap<String>>, mount_path: &str) -> (r: Result<
    Option<String>,
    DeviceError,
>)
    ensures
        match r {
            Ok(Some(device)) => device_of(records_view(sources@), mount_path@) == Ok::<
                Option<Seq<char>>,
                Seq<char>,
            >(Some(device@)),
            Ok(None) => device_of(records_view(sources@), mount_path@) == Ok::<
                Option<Seq<char>>,
                Seq<char>,
            >(None),
            Err(e) => device_of(records_view(sources@), mount_path@) == Err::<
                Option<Seq<char>>,
                Seq<char>,
            >(e@),
        },
        sources_normalized(records_view(sources@)) ==> (r matches Ok(Some(device))
            ==> well_normalized(device@)),
{
    if sources.len() == 0 {
        Ok(None)
    } else if sources.len() == 1 {
        match sources[0].get(SOURCE_KEY) {
            Some(devicepath) => Ok(Some(devicepath.clone())),
            None => Err(DeviceError::new(MISSING_SOURCE)),
        }
    } else {
        Err(DeviceError { message: concat(MULTIPLE_DEVICES, mount_path) })
    }
}

/// Finds the device mounted at a directory or block special file in what a
/// run of the enumerator printed. `mount_path` is the path that the device
/// is mounted on.
pub fn findmnt_get_devicepath(mount_path: &str, output: CommandOutput) -> (r: Result<
    Option<String>,
    DeviceError,
>)
    ensures
        match r {
            Ok(Some(device)) => device_for_mount(
                mount_path@,
                output.success,
                output.stdout@,
                output.stderr@,
            ) == Ok::<Option<Seq<char>>, Seq<char>>(Some(device@)) && well_normalized(device@),
            Ok(None) => device_for_mount(
                mount_path@,
                output.success,
                output.stdout@,
                output.stderr@,
            ) == Ok::<Option<Seq<char>>, Seq<char>>(None),
            Err(e) => device_for_mount(
                mount_path@,
                output.success,
                output.stdout@,
                output.stderr@,
            ) == Err::<Option<Seq<char>>, Seq<char>>(e@),
        },
{
    let tgt_filter = FindmntFilter { key: TARGET_KEY, value: mount_path };
    match findmnt(tgt_filter, output) {
        Ok(sources) => select_device(&sources, mount_path),
        Err(e) => Err(e),
    }
}

/// The mounts among the accepted records: one for each record with a target,
/// in order, with the record's filesystem type or, where it names none,
/// `unspecified`. A record without target is left out.
pub open spec fn mounts_of(records: Seq<RecordModel>) -> Seq<DeviceMountModel>
    decreases records.len(),
{
    if records.len() == 0 {
        Seq::empty()
    } else {
        let rest = mounts_of(records.drop_last());
        let record = records.last();
        if record.contains_key(TARGET_KEY@) {
            rest.push(
                DeviceMountModel {
                    mount_path: record[TARGET_KEY@],
                    fstype: if record.contains_key(FSTYPE_KEY@) {
                        record[FSTYPE_KEY@]
                    } else {
                        UNSPECIFIED_FSTYPE@
                    },
                },
            )
        } else {
            rest
        }
    }
}

/// The mounts in a list, each by its value.
pub open spec fn mounts_view(mounts: Seq<DeviceMount>) -> Seq<DeviceMountModel> {
    Seq::new(mounts.len(), |i: int| mounts[i]@)
}

/// The mounts of a device according to a run of the enumerator.
pub open spec fn mounts_for_device(
    device_path: Seq<char>,
    success: bool,
    stdout: Seq<u8>,
    stderr: Seq<u8>,
) -> Result<Seq<DeviceMountModel>, Seq<char>> {
    match probe_records(SOURCE_KEY@, device_path, success, stdout, stderr) {
        Ok(records) => Ok(mounts_of(records)),
        Err(msg) => Err(msg),
    }
}

/// Turns the records that were accepted for a device into its mounts.
pub fn collect_mounts(results: &Vec<StringHashMap<String>>) -> (mountpaths: Vec<DeviceMount>)
    ensures
        mounts_view(mountpaths@) == mounts_of(records_view(results@)),
{
    let ghost all = records_view(results@);
    let mut mountpaths: Vec<DeviceMount> = Vec::new();
    let mut i: usize = 0;
    while i < results.len()
        invariant
            i <= results.len(),
            all == records_view(results@),
            mounts_view(mountpaths@) == mounts_of(all.take(i as int)),
        decreases results.len() - i,
    {
        assert(all.take(i + 1).drop_last() =~= all.take(i as int));
        let entry = &results[i];
        match entry.get(TARGET_KEY) {
            Some(mountpath) => {
                let fstype = match entry.get(FSTYPE_KEY) {
                    Some(fstype) => fstype.clone(),
                    None => String::from_str(UNSPECIFIED_FSTYPE),
                };
                let mount = DeviceMount { mount_path: mountpath.clone(), fstype };
                mountpaths.push(mount);
            },
            None => {},
        }
        i += 1;
    }
    assert(all.take(i as int) =~= all);
    mountpaths
}

/// Finds the mount paths of a block device in what a run of the enumerator
/// printed. `device_path` is the path to the device, for example `/dev/sda1`.
pub fn findmnt_get_mountpaths(device_path: &str, output: CommandOutput) -> (r: Result<
    Vec<DeviceMount>,
    DeviceError,
>)
    ensures
        match r {
            Ok(mounts) => mounts_for_device(
                device_path@,
                output.success,
                output.stdout@,
                output.stderr@,
            ) == Ok::<Seq<DeviceMountModel>, Seq<char>>(mounts_view(mounts@)),
            Err(e) => mounts_for_device(
                device_path@,
                output.success,
                output.stdout@,
                output.stderr@,
            ) == Err::<Seq<DeviceMountModel>, Seq<char>>(e@),
        },
{
    let dev_filter = FindmntFilter { key: SOURCE_KEY, value: device_path };
    match findmnt(dev_filter, output) {
        Ok(results) => Ok(collect_mounts(&results)),
        Err(e) => Err(e),
    }
}

/// A source that is made of a prefix, `[/`, a name and `]`, where neither
/// the prefix nor the name holds a bracket or a line break, holds exactly
/// one bracketed device part: the name with the slash before it.
pub proof fn lemma_prefixed_source_is_plain(prefix: Seq<char>, name: Seq<char>)
    requires
        forall|k: int|
            0 <= k < prefix.len() ==> prefix[k] != '[' && prefix[k] != ']' && prefix[k] != '\n',
        forall|k: int| 0 <= k < name.len() ==> name[k] != '[' && name[k] != ']' && name[k] != '\n',
    ensures
        ({
            let raw = prefix + seq!['[', '/'] + name + seq![']'];
            &&& plainly_bracketed(raw, prefix.len() as int)
            &&& raw.subrange(prefix.len() as int + 1, raw.len() - 1) == seq!['/'] + name
        }),
{
}

/// A filter on the source accepts every raw source whose bracketed part,
/// put under the device directory, is the value asked for.
pub proof fn lemma_source_filter_accepts_bracketed(
    value: Seq<char>,
    raw: Seq<char>,
    device: Seq<char>,
)
    requires
        udev_capture(raw) == Some(device),
        value == DEV_DIR@ + device,
    ensures
        filter_accepts(SOURCE_KEY@, value, JsonModel::String(raw)),
{
}

/// A filter on any field accepts the text that equals its value, and on a
/// field other than the source nothing else.
pub proof fn lemma_filter_literal(key: Seq<char>, value: Seq<char>, found: JsonModel)
    ensures
        filter_accepts(key, value, JsonModel::String(value)),
        key != SOURCE_KEY@ ==> (filter_accepts(key, value, found) <==> found == JsonModel::String(
            value,
        )),
{
}

} // verus!
