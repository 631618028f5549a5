//! The volume service of the node plugin: finding the volumes of this node
//! and freezing and thawing their filesystems.
//!
//! The service looks things up in the device registry and in the mount
//! table and runs commands. None of that happens here: each operation is a
//! function from what has been observed so far to the result or to the next
//! thing to observe. The caller runs the loop, carries out each request and
//! records the answer in the observations.

use vstd::pervasive::unreached;
use vstd::prelude::*;
use vstd::utf8::{decode_utf8, valid_utf8};

use crate::error::DeviceError;
use crate::findmnt::{
    findmnt_get_mountpaths, mounts_for_device, mounts_view, CommandOutput, DeviceMount,
    DeviceMountModel,
};
use crate::text::{str_eq, string_from_utf8};

verus! {

/// Name of the helper that freezes and thaws a filesystem.
pub const FSFREEZE: &'static str = "fsfreeze";

/// Filesystem type under which a raw block volume shows up in the mount
/// table.
pub const RAW_BLOCK_FSTYPE: &'static str = "devtmpfs";

/// How a volume is published on a node.
#[derive(Clone, Copy, Debug, PartialEq, Eq, Structural)]
pub enum TypeOfMount {
    FileSystem,
    RawBlock,
}

/// The two things that the freeze helper can do to a filesystem.
#[derive(Clone, Copy, Debug, PartialEq, Eq, Structural)]
pub enum FreezeOp {
    Freeze,
    Unfreeze,
}

impl FreezeOp {
    /// The flag that asks the helper for this operation.
    pub fn flag(&self) -> (flag: &'static str)
        ensures
            flag@ == (match self {
                FreezeOp::Freeze => "--freeze"@,
                FreezeOp::Unfreeze => "--unfreeze"@,
            }),
    {
        match self {
            FreezeOp::Freeze => "--freeze",
            FreezeOp::Unfreeze => "--unfreeze",
        }
    }
}

/// Why an operation of the volume service failed.
#[derive(Debug)]
#[allow(inconsistent_fields)]
pub enum ServiceError {
    VolumeNotFound { volid: String },
    /// The volume ID is no UUID; `source` is the parser's message.
    InvalidVolumeId { source: String, volid: String },
    /// The freeze helper ended with a failure; `error` is what it wrote to
    /// its standard error stream.
    FsfreezeFailed { volid: String, error: String },
    InternalFailure { source: DeviceError, volid: String },
    /// The freeze helper could not be run; `source` is the I/O error's
    /// message.
    IOError { source: String, volid: String },
    InconsistentMountFs { volid: String },
    BlockDeviceMount { volid: String },
}

/// The mathematical value of a [`ServiceError`].
#[allow(inconsistent_fields)]
pub ghost enum ServiceErrorModel {
    VolumeNotFound { volid: Seq<char> },
    InvalidVolumeId { source: Seq<char>, volid: Seq<char> },
    FsfreezeFailed { volid: Seq<char>, error: Seq<char> },
    InternalFailure { source: Seq<char>, volid: Seq<char> },
    IOError { source: Seq<char>, volid: Seq<char> },
    InconsistentMountFs { volid: Seq<char> },
    BlockDeviceMount { volid: Seq<char> },
}

impl View for ServiceError {
    type V = ServiceErrorModel;

    open spec fn view(&self) -> ServiceErrorModel {
        match self {
            ServiceError::VolumeNotFound { volid } => ServiceErrorModel::VolumeNotFound {
                volid: volid@,
            },
            ServiceError::InvalidVolumeId { source, volid } => ServiceErrorModel::InvalidVolumeId {
                source: source@,
                volid: volid@,
            },
            ServiceError::FsfreezeFailed { volid, error } => ServiceErrorModel::FsfreezeFailed {
                volid: volid@,
                error: error@,
            },
            ServiceError::InternalFailure { source, volid } => ServiceErrorModel::InternalFailure {
                source: source@,
                volid: volid@,
            },
            ServiceError::IOError { source, volid } => ServiceErrorModel::IOError {
                source: source@,
                volid: volid@,
            },
            ServiceError::InconsistentMountFs { volid } => ServiceErrorModel::InconsistentMountFs {
                volid: volid@,
            },
            ServiceError::BlockDeviceMount { volid } => ServiceErrorModel::BlockDeviceMount {
                volid: volid@,
            },
        }
    }
}

/// The message of an error of the volume service.
pub open spec fn service_error_text(e: ServiceErrorModel) -> Seq<char> {
    match e {
        ServiceErrorModel::VolumeNotFound { volid } => "Cannot find volume: volume ID: "@ + volid,
        ServiceErrorModel::InvalidVolumeId { source, volid } => "Invalid volume ID: "@ + volid
            + ", "@ + source,
        ServiceErrorModel::FsfreezeFailed { volid, error } => "fsfreeze failed: volume ID: "@
            + volid + ", "@ + error,
        ServiceErrorModel::InternalFailure { source, volid } => "Internal failure: volume ID:"@
            + volid + ", "@ + source,
        ServiceErrorModel::IOError { source, volid } => "IO error: volume ID: "@ + volid + ", "@
            + source,
        ServiceErrorModel::InconsistentMountFs { volid } =>
            "Inconsistent mount filesystems: volume ID: "@ + volid,
        ServiceErrorModel::BlockDeviceMount { volid } => "Not a filesystem mount: volume ID: "@
            + volid,
    }
}

fn message2(head: &str, volid: &str) -> (s: String)
    ensures
        s@ == head@ + volid@,
{
    let mut s = String::from_str(head);
    s.append(volid);
    s
}

fn message3(head: &str, volid: &str, detail: &str) -> (s: String)
    ensures
        s@ == head@ + volid@ + ", "@ + detail@,
{
    let mut s = String::from_str(head);
    s.append(volid);
    s.append(", ");
    s.append(detail);
    s
}

/// The exit status with which a command line reports the outcome of an
/// operation: zero for success, one for a failure in general, and a status
/// of its own for a volume that is not found, for a volume ID that is none,
/// and for an I/O error, which may pass.
pub open spec fn exit_status<T>(outcome: Result<T, ServiceErrorModel>) -> int {
    match outcome {
        Ok(_) => 0,
        Err(ServiceErrorModel::VolumeNotFound { .. }) => 2,
        Err(ServiceErrorModel::InvalidVolumeId { .. }) => 3,
        Err(ServiceErrorModel::IOError { .. }) => 4,
        Err(_) => 1,
    }
}

impl ServiceError {
    /// The exit status with which a command line reports this error.
    pub fn exit_code(&self) -> (code: i32)
        ensures
            code == exit_status(Err::<(), ServiceErrorModel>(self@)),
            code != 0,
    {
        match self {
            ServiceError::VolumeNotFound { .. } => 2,
            ServiceError::InvalidVolumeId { .. } => 3,
            ServiceError::IOError { .. } => 4,
            _ => 1,
        }
    }

    /// The message of this error.
    pub fn to_string(&self) -> (s: String)
        ensures
            s@ == service_error_text(self@),
    {
        match self {
            ServiceError::VolumeNotFound { volid } => message2(
                "Cannot find volume: volume ID: ",
                volid.as_str(),
            ),
            ServiceError::InvalidVolumeId { source, volid } => message3(
                "Invalid volume ID: ",
                volid.as_str(),
                source.as_str(),
            ),
            ServiceError::FsfreezeFailed { volid, error } => message3(
                "fsfreeze failed: volume ID: ",
                volid.as_str(),
                error.as_str(),
            ),
            ServiceError::InternalFailure { source, volid } => message3(
                "Internal failure: volume ID:",
                volid.as_str(),
                source.message.as_str(),
            ),
            ServiceError::IOError { source, volid } => message3(
                "IO error: volume ID: ",
                volid.as_str(),
                source.as_str(),
            ),
            ServiceError::InconsistentMountFs { volid } => message2(
                "Inconsistent mount filesystems: volume ID: ",
                volid.as_str(),
            ),
            ServiceError::BlockDeviceMount { volid } => message2(
                "Not a filesystem mount: volume ID: ",
                volid.as_str(),
            ),
        }
    }
}

/// What parsing `text` as a UUID gives: its sixteen bytes, or the parser's
/// message where `text` is no UUID.
pub uninterp spec fn uuid_parse(text: Seq<char>) -> Result<Seq<u8>, Seq<char>>;

/// Wraps `uuid::Uuid::parse_str`: the bytes of the UUID that the text names
/// (`Uuid::as_bytes`), or the display text of the parser's error.
#[verifier::external_body]
fn parse_uuid(text: &str) -> (r: Result<[u8; 16], String>)
    ensures
        match r {
            Ok(bytes) => uuid_parse(text@) == Ok::<Seq<u8>, Seq<char>>(bytes@),
            Err(msg) => uuid_parse(text@) == Err::<Seq<u8>, Seq<char>>(msg@),
        },
{
    match uuid::Uuid::parse_str(text) {
        Ok(id) => Ok(*id.as_bytes()),
        Err(e) => Err(e.to_string()),
    }
}

/// What the service asks its caller to find out next.
#[derive(Debug)]
pub enum VolumeRequest {
    /// Ask the device registry for the device with this UUID.
    LookupDevice { uuid: [u8; 16] },
    /// Ask the mount table where this device is mounted.
    FindMount { device_path: String },
    /// Run the freeze helper with the flag of `op` and with `target`.
    RunFsfreeze { op: FreezeOp, target: String },
    /// Run the mount enumerator.
    ProbeMounts { device_path: String },
}

/// The mathematical value of a [`VolumeRequest`].
pub ghost enum VolumeRequestModel {
    LookupDevice { uuid: Seq<u8> },
    FindMount { device_path: Seq<char> },
    RunFsfreeze { op: FreezeOp, target: Seq<char> },
    ProbeMounts { device_path: Seq<char> },
}

impl View for VolumeRequest {
    type V = VolumeRequestModel;

    open spec fn view(&self) -> VolumeRequestModel {
        match self {
            VolumeRequest::LookupDevice { uuid } => VolumeRequestModel::LookupDevice {
                uuid: uuid@,
            },
            VolumeRequest::FindMount { device_path } => VolumeRequestModel::FindMount {
                device_path: device_path@,
            },
            VolumeRequest::RunFsfreeze { op, target } => VolumeRequestModel::RunFsfreeze {
                op: *op,
                target: target@,
            },
            VolumeRequest::ProbeMounts { device_path } => VolumeRequestModel::ProbeMounts {
                device_path: device_path@,
            },
        }
    }
}

/// Where an operation stands: it needs an answer, or it is done.
#[derive(Debug)]
pub enum VolumeStep<T> {
    Ask(VolumeRequest),
    Done(Result<T, ServiceError>),
}

/// The mathematical value of a [`VolumeStep`].
pub ghost enum VolumeStepModel<T> {
    Ask(VolumeRequestModel),
    Done(Result<T, ServiceErrorModel>),
}

impl<T> View for VolumeStep<T> {
    type V = VolumeStepModel<T>;

    open spec fn view(&self) -> VolumeStepModel<T> {
        match self {
            VolumeStep::Ask(request) => VolumeStepModel::Ask(request@),
            VolumeStep::Done(Ok(value)) => VolumeStepModel::Done(Ok(*value)),
            VolumeStep::Done(Err(e)) => VolumeStepModel::Done(Err(e@)),
        }
    }
}

/// The answers that an operation has got so far. An answer that has not
/// been asked for yet is `None`.
#[derive(Clone, Debug)]
pub struct VolumeObservations {
    /// The device registry's answer: the name of the device, if there is
    /// one.
    pub device: Option<Result<Option<String>, DeviceError>>,
    /// The mount table's answer: where the device is mounted, if it is.
    pub mount: Option<Option<String>>,
    /// What the freeze helper left behind, or the message of the I/O error
    /// that kept it from running.
    pub fsfreeze: Option<Result<CommandOutput, String>>,
    /// What the mount enumerator left behind, or the error that kept it from
    /// running.
    pub probe: Option<Result<CommandOutput, DeviceError>>,
}

impl VolumeObservations {
    /// Nothing observed yet.
    pub fn new() -> (seen: VolumeObservations)
        ensures
            seen.device.is_none(),
            seen.mount.is_none(),
            seen.fsfreeze.is_none(),
            seen.probe.is_none(),
    {
        VolumeObservations { device: None, mount: None, fsfreeze: None, probe: None }
    }

    /// Whether the freeze helper's output, where it failed, is text.
    pub open spec fn fsfreeze_readable(&self) -> bool {
        self.fsfreeze matches Some(Ok(output)) ==> output.success || valid_utf8(output.stderr@)
    }
}

/// The failure for a volume that no device or mount was found for.
pub open spec fn not_found<T>(volid: Seq<char>) -> VolumeStepModel<T> {
    VolumeStepModel::Done(Err(ServiceErrorModel::VolumeNotFound { volid }))
}

/// The failure for an error of the device layer.
pub open spec fn internal_failure<T>(source: Seq<char>, volid: Seq<char>) -> VolumeStepModel<T> {
    VolumeStepModel::Done(Err(ServiceErrorModel::InternalFailure { source, volid }))
}

/// How freezing or thawing goes on once the device is known to be mounted
/// at `target` by the mount table: the helper is run, and its exit decides.
pub open spec fn fsfreeze_on_mount(
    volid: Seq<char>,
    op: FreezeOp,
    target: Seq<char>,
    seen: VolumeObservations,
) -> VolumeStepModel<()> {
    match seen.fsfreeze {
        None => VolumeStepModel::Ask(VolumeRequestModel::RunFsfreeze { op, target }),
        Some(Err(msg)) => VolumeStepModel::Done(
            Err(ServiceErrorModel::IOError { source: msg@, volid }),
        ),
        Some(Ok(output)) => if output.success {
            VolumeStepModel::Done(Ok(()))
        } else {
            VolumeStepModel::Done(
                Err(ServiceErrorModel::FsfreezeFailed { volid, error: decode_utf8(output.stderr@) }),
            )
        },
    }
}

/// How freezing or thawing goes on once the mount table knows no mount of
/// the device: the enumerator is asked, and a device that it knows to be
/// mounted is a raw block volume.
pub open spec fn fsfreeze_without_mount(
    volid: Seq<char>,
    device_path: Seq<char>,
    seen: VolumeObservations,
) -> VolumeStepModel<()> {
    match seen.probe {
        None => VolumeStepModel::Ask(VolumeRequestModel::ProbeMounts { device_path }),
        Some(Err(e)) => internal_failure(e@, volid),
        Some(Ok(output)) => match mounts_for_device(
            device_path,
            output.success,
            output.stdout@,
            output.stderr@,
        ) {
            Err(msg) => internal_failure(msg, volid),
            Ok(mounts) => if mounts.len() > 0 {
                VolumeStepModel::Done(Err(ServiceErrorModel::BlockDeviceMount { volid }))
            } else {
                not_found(volid)
            },
        },
    }
}

/// Where freezing or thawing the volume `volid` stands, given what parsing
/// the volume ID gave and what has been observed.
pub open spec fn fsfreeze_step(
    volid: Seq<char>,
    parsed: Result<Seq<u8>, Seq<char>>,
    op: FreezeOp,
    seen: VolumeObservations,
) -> VolumeStepModel<()> {
    match parsed {
        Err(msg) => VolumeStepModel::Done(
            Err(ServiceErrorModel::InvalidVolumeId { source: msg, volid }),
        ),
        Ok(uuid) => match seen.device {
            None => VolumeStepModel::Ask(VolumeRequestModel::LookupDevice { uuid }),
            Some(Err(e)) => internal_failure(e@, volid),
            Some(Ok(None)) => not_found(volid),
            Some(Ok(Some(device_path))) => match seen.mount {
                None => VolumeStepModel::Ask(
                    VolumeRequestModel::FindMount { device_path: device_path@ },
                ),
                Some(Some(target)) => fsfreeze_on_mount(volid, op, target@, seen),
                Some(None) => fsfreeze_without_mount(volid, device_path@, seen),
            },
        },
    }
}

/// What the mounts of one device say about it.
#[derive(Clone, Copy, Debug, PartialEq, Eq, Structural)]
pub enum MountClass {
    /// The device is not mounted.
    Unmounted,
    /// The mounts do not agree on the filesystem type.
    Inconsistent,
    /// All mounts have one filesystem type.
    Uniform(TypeOfMount),
}

/// Whether all mounts have the filesystem type of the first.
pub open spec fn same_fstype(mounts: Seq<DeviceMountModel>) -> bool {
    forall|i: int| 0 <= i < mounts.len() ==> (#[trigger] mounts[i]).fstype == mounts[0].fstype
}

/// The class of a device with these mounts: a raw block volume where the
/// common filesystem type is that of the device directory, a filesystem
/// volume otherwise.
pub open spec fn class_of(mounts: Seq<DeviceMountModel>) -> MountClass {
    if mounts.len() == 0 {
        MountClass::Unmounted
    } else if !same_fstype(mounts) {
        MountClass::Inconsistent
    } else if mounts[0].fstype == RAW_BLOCK_FSTYPE@ {
        MountClass::Uniform(TypeOfMount::RawBlock)
    } else {
        MountClass::Uniform(TypeOfMount::FileSystem)
    }
}

/// Classifies a device by its mounts.
pub fn classify_mounts(mountpaths: &Vec<DeviceMount>) -> (class: MountClass)
    ensures
        class == class_of(mounts_view(mountpaths@)),
{
    if mountpaths.len() == 0 {
        return MountClass::Unmounted;
    }
    let ghost mounts = mounts_view(mountpaths@);
    let fstype = mountpaths[0].fstype.as_str();
    let mut i: usize = 0;
    while i < mountpaths.len()
        invariant
            i <= mountpaths.len(),
            mounts == mounts_view(mountpaths@),
            mounts.len() > 0,
            fstype@ == mounts[0].fstype,
            forall|j: int| 0 <= j < i ==> (#[trigger] mounts[j]).fstype == mounts[0].fstype,
        decreases mountpaths.len() - i,
    {
        if !str_eq(fstype, mountpaths[i].fstype.as_str()) {
            assert(mounts[i as int].fstype != mounts[0].fstype);
            return MountClass::Inconsistent;
        }
        i += 1;
    }
    if str_eq(fstype, RAW_BLOCK_FSTYPE) {
        MountClass::Uniform(TypeOfMount::RawBlock)
    } else {
        MountClass::Uniform(TypeOfMount::FileSystem)
    }
}

/// Where finding the volume `volid` stands, given what parsing the volume
/// ID gave and what has been observed.
pub open spec fn find_volume_step(
    volid: Seq<char>,
    parsed: Result<Seq<u8>, Seq<char>>,
    seen: VolumeObservations,
) -> VolumeStepModel<TypeOfMount> {
    match parsed {
        Err(msg) => VolumeStepModel::Done(
            Err(ServiceErrorModel::InvalidVolumeId { source: msg, volid }),
        ),
        Ok(uuid) => match seen.device {
            None => VolumeStepModel::Ask(VolumeRequestModel::LookupDevice { uuid }),
            Some(Err(e)) => internal_failure(e@, volid),
            Some(Ok(None)) => not_found(volid),
            Some(Ok(Some(device_path))) => match seen.probe {
                None => VolumeStepModel::Ask(
                    VolumeRequestModel::ProbeMounts { device_path: device_path@ },
                ),
                Some(Err(e)) => internal_failure(e@, volid),
                Some(Ok(output)) => match mounts_for_device(
                    device_path@,
                    output.success,
                    output.stdout@,
                    output.stderr@,
                ) {
                    Err(msg) => internal_failure(msg, volid),
                    Ok(mounts) => match class_of(mounts) {
                        MountClass::Unmounted => not_found(volid),
                        MountClass::Inconsistent => VolumeStepModel::Done(
                            Err(ServiceErrorModel::InconsistentMountFs { volid }),
                        ),
                        MountClass::Uniform(kind) => VolumeStepModel::Done(Ok(kind)),
                    },
                },
            },
        },
    }
}

/// What a parse of the volume ID gave, as the specifications see it.
pub open spec fn parsed_view(parsed: Result<[u8; 16], String>) -> Result<Seq<u8>, Seq<char>> {
    match parsed {
        Ok(uuid) => Ok(uuid@),
        Err(msg) => Err(msg@),
    }
}

/// Parses a volume ID, which is a UUID.
pub fn parse_volume_id(volume_id: &str) -> (parsed: Result<[u8; 16], String>)
    ensures
        parsed_view(parsed) == uuid_parse(volume_id@),
{
    parse_uuid(volume_id)
}

fn not_found_error(volume_id: &str) -> (e: ServiceError)
    ensures
        e@ == (ServiceErrorModel::VolumeNotFound { volid: volume_id@ }),
{
    ServiceError::VolumeNotFound { volid: String::from_str(volume_id) }
}

fn internal_failure_error(source: DeviceError, volume_id: &str) -> (e: ServiceError)
    ensures
        e@ == (ServiceErrorModel::InternalFailure { source: source@, volid: volume_id@ }),
{
    ServiceError::InternalFailure { source, volid: String::from_str(volume_id) }
}

/// The text that the freeze helper wrote to its standard error stream.
fn helper_message(stderr: Vec<u8>) -> (text: String)
    requires
        valid_utf8(stderr@),
    ensures
        text@ == decode_utf8(stderr@),
{
    match string_from_utf8(stderr) {
        Ok(text) => text,
        Err(_) => unreached(),
    }
}

/// Decides how freezing or thawing a volume goes on, from what parsing its
/// ID gave and from the answers so far.
///
/// The device is looked up by the UUID. A device that the mount table knows
/// has its filesystem frozen or thawed by the helper, whose failure is
/// reported with what it wrote to its standard error stream. A device that
/// only the mount enumerator knows is a raw block volume and cannot be
/// frozen. A device that is nowhere mounted counts as not found.
pub fn fsfreeze_plan(
    volume_id: &str,
    parsed: Result<[u8; 16], String>,
    op: FreezeOp,
    seen: VolumeObservations,
) -> (step: VolumeStep<()>)
    requires
        seen.fsfreeze_readable(),
    ensures
        step@ == fsfreeze_step(volume_id@, parsed_view(parsed), op, seen),
{
    let uuid = match parsed {
        Ok(uuid) => uuid,
        Err(source) => {
            return VolumeStep::Done(
                Err(ServiceError::InvalidVolumeId { source, volid: String::from_str(volume_id) }),
            );
        },
    };
    let VolumeObservations { device, mount, fsfreeze, probe } = seen;
    let device_path = match device {
        None => {
            return VolumeStep::Ask(VolumeRequest::LookupDevice { uuid });
        },
        Some(Err(source)) => {
            return VolumeStep::Done(Err(internal_failure_error(source, volume_id)));
        },
        Some(Ok(None)) => {
            return VolumeStep::Done(Err(not_found_error(volume_id)));
        },
        Some(Ok(Some(name))) => name,
    };
    match mount {
        None => VolumeStep::Ask(VolumeRequest::FindMount { device_path }),
        Some(Some(target)) => match fsfreeze {
            None => VolumeStep::Ask(VolumeRequest::RunFsfreeze { op, target }),
            Some(Err(source)) => VolumeStep::Done(
                Err(ServiceError::IOError { source, volid: String::from_str(volume_id) }),
            ),
            Some(Ok(output)) => {
                if output.success {
                    VolumeStep::Done(Ok(()))
                } else {
                    VolumeStep::Done(
                        Err(
                            ServiceError::FsfreezeFailed {
                                volid: String::from_str(volume_id),
                                error: helper_message(output.stderr),
                            },
                        ),
                    )
                }
            },
        },
        Some(None) => match probe {
            None => VolumeStep::Ask(VolumeRequest::ProbeMounts { device_path }),
            Some(Err(source)) => VolumeStep::Done(Err(internal_failure_error(source, volume_id))),
            Some(Ok(output)) => match findmnt_get_mountpaths(device_path.as_str(), output) {
                Err(source) => VolumeStep::Done(Err(internal_failure_error(source, volume_id))),
                Ok(mountpaths) => {
                    // The mount table knows no mount of the device, but the
                    // enumerator does: a raw block volume.
                    if mountpaths.len() > 0 {
                        VolumeStep::Done(
                            Err(
                                ServiceError::BlockDeviceMount {
                                    volid: String::from_str(volume_id),
                                },
                            ),
                        )
                    } else {
                        VolumeStep::Done(Err(not_found_error(volume_id)))
                    }
                },
            },
        },
    }
}

/// Freezes or thaws the filesystem of a volume, as far as the answers so
/// far allow.
pub fn fsfreeze(volume_id: &str, op: FreezeOp, seen: VolumeObservations) -> (step: VolumeStep<()>)
    requires
        seen.fsfreeze_readable(),
    ensures
        step@ == fsfreeze_step(volume_id@, uuid_parse(volume_id@), op, seen),
{
    fsfreeze_plan(volume_id, parse_volume_id(volume_id), op, seen)
}

/// Freezes the filesystem of a volume.
pub fn freeze_volume(volume_id: &str, seen: VolumeObservations) -> (step: VolumeStep<()>)
    requires
        seen.fsfreeze_readable(),
    ensures
        step@ == fsfreeze_step(volume_id@, uuid_parse(volume_id@), FreezeOp::Freeze, seen),
{
    fsfreeze(volume_id, FreezeOp::Freeze, seen)
}

/// Thaws the filesystem of a volume.
pub fn unfreeze_volume(volume_id: &str, seen: VolumeObservations) -> (step: VolumeStep<()>)
    requires
        seen.fsfreeze_readable(),
    ensures
        step@ == fsfreeze_step(volume_id@, uuid_parse(volume_id@), FreezeOp::Unfreeze, seen),
{
    fsfreeze(volume_id, FreezeOp::Unfreeze, seen)
}

/// Decides how finding a volume goes on, from what parsing its ID gave and
/// from the answers so far.
///
/// The device is looked up by the UUID and classified by the mounts that the
/// enumerator reports of it. A device that is nowhere mounted counts as not
/// found.
pub fn find_volume_plan(
    volume_id: &str,
    parsed: Result<[u8; 16], String>,
    seen: VolumeObservations,
) -> (step: VolumeStep<TypeOfMount>)
    ensures
        step@ == find_volume_step(volume_id@, parsed_view(parsed), seen),
{
    let uuid = match parsed {
        Ok(uuid) => uuid,
        Err(source) => {
            return VolumeStep::Done(
                Err(ServiceError::InvalidVolumeId { source, volid: String::from_str(volume_id) }),
            );
        },
    };
    let VolumeObservations { device, mount: _, fsfreeze: _, probe } = seen;
    let device_path = match device {
        None => {
            return VolumeStep::Ask(VolumeRequest::LookupDevice { uuid });
        },
        Some(Err(source)) => {
            return VolumeStep::Done(Err(internal_failure_error(source, volume_id)));
        },
        Some(Ok(None)) => {
            return VolumeStep::Done(Err(not_found_error(volume_id)));
        },
        Some(Ok(Some(name))) => name,
    };
    match probe {
        None => VolumeStep::Ask(VolumeRequest::ProbeMounts { device_path }),
        Some(Err(source)) => VolumeStep::Done(Err(internal_failure_error(source, volume_id))),
        Some(Ok(output)) => match findmnt_get_mountpaths(device_path.as_str(), output) {
            Err(source) => VolumeStep::Done(Err(internal_failure_error(source, volume_id))),
            Ok(mountpaths) => match classify_mounts(&mountpaths) {
                MountClass::Unmounted => VolumeStep::Done(Err(not_found_error(volume_id))),
                MountClass::Inconsistent => VolumeStep::Done(
                    Err(
                        ServiceError::InconsistentMountFs { volid: String::from_str(volume_id) },
                    ),
                ),
                MountClass::Uniform(kind) => VolumeStep::Done(Ok(kind)),
            },
        },
    }
}

/// Finds out how a volume is published on this node, as far as the answers
/// so far allow.
pub fn find_volume(volume_id: &str, seen: VolumeObservations) -> (step: VolumeStep<TypeOfMount>)
    ensures
        step@ == find_volume_step(volume_id@, uuid_parse(volume_id@), seen),
{
    find_volume_plan(volume_id, parse_volume_id(volume_id), seen)
}

/// On a volume whose device the mount table knows, freezing and thawing
/// both succeed where the helper does.
pub proof fn lemma_freeze_and_unfreeze_succeed(
    volid: Seq<char>,
    uuid: Seq<u8>,
    seen: VolumeObservations,
)
    requires
        seen.device matches Some(Ok(Some(_))),
        seen.mount matches Some(Some(_)),
        seen.fsfreeze matches Some(Ok(output)) && output.success,
    ensures
        fsfreeze_step(volid, Ok(uuid), FreezeOp::Freeze, seen) == VolumeStepModel::Done(
            Ok::<(), ServiceErrorModel>(()),
        ),
        fsfreeze_step(volid, Ok(uuid), FreezeOp::Unfreeze, seen) == VolumeStepModel::Done(
            Ok::<(), ServiceErrorModel>(()),
        ),
{
}

/// A volume whose mounts all carry one filesystem type other than that of
/// the device directory is found as a filesystem volume.
pub proof fn lemma_mounted_filesystem_is_found(
    volid: Seq<char>,
    uuid: Seq<u8>,
    seen: VolumeObservations,
    mounts: Seq<DeviceMountModel>,
)
    requires
        seen.device matches Some(Ok(Some(device_path))) && (seen.probe matches Some(Ok(output))
            && mounts_for_device(device_path@, output.success, output.stdout@, output.stderr@)
            == Ok::<Seq<DeviceMountModel>, Seq<char>>(mounts)),
        mounts.len() > 0,
        same_fstype(mounts),
        mounts[0].fstype != RAW_BLOCK_FSTYPE@,
    ensures
        find_volume_step(volid, Ok(uuid), seen) == VolumeStepModel::Done(
            Ok::<TypeOfMount, ServiceErrorModel>(TypeOfMount::FileSystem),
        ),
{
}

/// An operation asks for nothing before the volume ID has been read as a
/// UUID: an ID that is none ends it at once, whatever has been observed.
pub proof fn lemma_invalid_id_is_refused(
    volid: Seq<char>,
    msg: Seq<char>,
    op: FreezeOp,
    seen: VolumeObservations,
)
    ensures
        fsfreeze_step(volid, Err(msg), op, seen) == VolumeStepModel::Done(
            Err::<(), ServiceErrorModel>(
                ServiceErrorModel::InvalidVolumeId { source: msg, volid },
            ),
        ),
        find_volume_step(volid, Err(msg), seen) == VolumeStepModel::Done(
            Err::<TypeOfMount, ServiceErrorModel>(
                ServiceErrorModel::InvalidVolumeId { source: msg, volid },
            ),
        ),
{
}

} // verus!
