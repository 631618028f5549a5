//! A child of a nexus: one block device that takes part in a mirrored
//! virtual block device as a replica.
//!
//! The child decides; it does not touch the block-device driver, the rebuild
//! registry or the store of child states. What it needs of them comes in as
//! an argument, and what it wants done to them goes out as a [`ChildAction`]
//! that the caller takes with [`NexusChild::take_actions`] and carries out
//! in order.

use vstd::prelude::*;

use crate::child_state::{
    project_status, status_of, ChildError, ChildErrorModel, ChildIoError, ChildIoErrorModel,
    state_name, ChildState, ChildStatus, CoreError, CoreErrorModel, Reason,
};
use crate::err_store::{ErrRecord, ErrStoreModel, IoErrorKind, NexusErrStore};
use crate::text::{decimal, decimal_text};

verus! {

/// What a child reads of its block device.
#[derive(Debug)]
pub struct Bdev {
    name: String,
    num_blocks: u64,
    block_len: u32,
}

/// The mathematical value of a [`Bdev`].
pub ghost struct BdevModel {
    pub name: Seq<char>,
    pub num_blocks: u64,
    pub block_len: u32,
}

impl BdevModel {
    /// The size of the device in bytes.
    pub open spec fn size_in_bytes(self) -> nat {
        (self.num_blocks * self.block_len) as nat
    }

    /// The size of a device fits the machine's widest unsigned integer.
    pub open spec fn wf(self) -> bool {
        self.size_in_bytes() <= u64::MAX
    }
}

impl View for Bdev {
    type V = BdevModel;

    closed spec fn view(&self) -> BdevModel {
        BdevModel { name: self.name@, num_blocks: self.num_blocks, block_len: self.block_len }
    }
}

impl Bdev {
    #[verifier::type_invariant]
    spec fn fits(self) -> bool {
        self.num_blocks * self.block_len <= u64::MAX
    }

    /// The device called `name` with `num_blocks` blocks of `block_len`
    /// bytes, unless its size in bytes is beyond `u64`.
    pub fn new(name: String, num_blocks: u64, block_len: u32) -> (bdev: Option<Bdev>)
        ensures
            match bdev {
                Some(b) => b@ == (BdevModel { name: name@, num_blocks, block_len }) && b@.wf(),
                None => num_blocks * block_len > u64::MAX,
            },
    {
        match num_blocks.checked_mul(block_len as u64) {
            Some(_) => Some(Bdev { name, num_blocks, block_len }),
            None => None,
        }
    }

    /// The name under which the driver knows the device.
    pub fn name(&self) -> (name: &str)
        ensures
            name@ == self@.name,
    {
        self.name.as_str()
    }

    /// The number of blocks of the device.
    pub fn num_blocks(&self) -> (n: u64)
        ensures
            n == self@.num_blocks,
    {
        self.num_blocks
    }

    /// The size of a block in bytes.
    pub fn block_len(&self) -> (n: u32)
        ensures
            n == self@.block_len,
    {
        self.block_len
    }

    /// The size of the device in bytes.
    pub fn size_in_bytes(&self) -> (n: u64)
        ensures
            n == self@.size_in_bytes(),
            self@.wf(),
    {
        proof {
            use_type_invariant(self);
        }
        self.num_blocks * (self.block_len as u64)
    }
}

/// The token of an open block device. It is the identity under which the
/// driver knows the opening.
#[derive(Clone, Copy, Debug, PartialEq, Eq, Structural)]
pub struct Descriptor {
    pub id: u64,
}

/// The token of the read and write interface on top of a descriptor.
#[derive(Clone, Copy, Debug, PartialEq, Eq, Structural)]
pub struct BdevHandle {
    /// The descriptor that the handle was made from and refers to.
    pub desc: Descriptor,
}

/// What a child wants done outside of itself.
#[derive(Clone, Copy, Debug, PartialEq, Eq, Structural)]
pub enum ChildAction {
    /// Release the claim on the child's block device, if the driver shows
    /// one.
    ReleaseClaim,
    /// Drop the I/O handle. It refers to the descriptor and goes first.
    DropHandle(BdevHandle),
    /// Drop the descriptor.
    DropDescriptor(Descriptor),
    /// Save the states of the children. A failure to do so is logged and
    /// nothing else.
    SaveState,
}

/// Whether and how large an error history a child keeps once it is open.
#[derive(Clone, Copy, Debug, PartialEq, Eq, Structural)]
pub struct ErrStoreOpts {
    pub enable_err_store: bool,
    pub err_store_size: usize,
}

/// How an attempt to claim a block device and to open it for writing ended.
#[derive(Debug)]
pub enum ClaimOutcome {
    /// The device is claimed, and this handle was made from its descriptor.
    Claimed(BdevHandle),
    /// The device is claimed under `desc`, but no handle could be made.
    NoHandle { desc: Descriptor, source: CoreError },
    /// The device could not be opened.
    Refused(CoreError),
}

/// The mathematical value of a [`ClaimOutcome`].
pub ghost enum ClaimOutcomeModel {
    Claimed(BdevHandle),
    NoHandle { desc: Descriptor, source: CoreErrorModel },
    Refused(CoreErrorModel),
}

impl View for ClaimOutcome {
    type V = ClaimOutcomeModel;

    open spec fn view(&self) -> ClaimOutcomeModel {
        match self {
            ClaimOutcome::Claimed(handle) => ClaimOutcomeModel::Claimed(*handle),
            ClaimOutcome::NoHandle { desc, source } => ClaimOutcomeModel::NoHandle {
                desc: *desc,
                source: source@,
            },
            ClaimOutcome::Refused(source) => ClaimOutcomeModel::Refused(source@),
        }
    }
}

/// The outcome of a claim, if one has been attempted.
pub open spec fn claim_view(claim: Option<ClaimOutcome>) -> Option<ClaimOutcomeModel> {
    match claim {
        Some(outcome) => Some(outcome@),
        None => None,
    }
}

/// Where opening a child stands.
#[derive(Debug)]
pub enum OpenStep {
    /// The named block device has to be claimed and opened for writing
    /// before the child can go on.
    Claim { bdev_name: String },
    /// Opening ended: with the child's name, or with an error.
    Done(Result<String, ChildError>),
}

/// The mathematical value of an [`OpenStep`].
pub ghost enum OpenStepModel {
    Claim { bdev_name: Seq<char> },
    Done(Result<Seq<char>, ChildErrorModel>),
}

impl View for OpenStep {
    type V = OpenStepModel;

    open spec fn view(&self) -> OpenStepModel {
        match self {
            OpenStep::Claim { bdev_name } => OpenStepModel::Claim { bdev_name: bdev_name@ },
            OpenStep::Done(Ok(name)) => OpenStepModel::Done(Ok(name@)),
            OpenStep::Done(Err(e)) => OpenStepModel::Done(Err(e@)),
        }
    }
}

/// Where reading from a child or writing to it stands.
#[derive(Debug)]
pub enum IoStep<T> {
    /// The transfer has to be submitted on this handle at this offset.
    Submit { handle: BdevHandle, offset: u64 },
    Done(Result<T, ChildIoError>),
}

/// The mathematical value of an [`IoStep`].
pub ghost enum IoStepModel<T> {
    Submit { handle: BdevHandle, offset: u64 },
    Done(Result<T, ChildIoErrorModel>),
}

impl<T> View for IoStep<T> {
    type V = IoStepModel<T>;

    open spec fn view(&self) -> IoStepModel<T> {
        match self {
            IoStep::Submit { handle, offset } => IoStepModel::Submit {
                handle: *handle,
                offset: *offset,
            },
            IoStep::Done(Ok(n)) => IoStepModel::Done(Ok(*n)),
            IoStep::Done(Err(e)) => IoStepModel::Done(Err(e@)),
        }
    }
}

/// Where destroying a child stands. `E` is the error of the block device's
/// destructor.
#[derive(Debug)]
pub enum DestroyStep<E> {
    /// The child is in no state to be destroyed.
    Refused(ChildError),
    /// The block device that was made for the child of this name has to be
    /// destroyed.
    DestroyBdev { name: String },
    Done(Result<(), E>),
}

/// The mathematical value of a [`DestroyStep`].
pub ghost enum DestroyStepModel<E> {
    Refused(ChildErrorModel),
    DestroyBdev { name: Seq<char> },
    Done(Result<(), E>),
}

impl<E> View for DestroyStep<E> {
    type V = DestroyStepModel<E>;

    open spec fn view(&self) -> DestroyStepModel<E> {
        match self {
            DestroyStep::Refused(e) => DestroyStepModel::Refused(e@),
            DestroyStep::DestroyBdev { name } => DestroyStepModel::DestroyBdev { name: name@ },
            DestroyStep::Done(r) => DestroyStepModel::Done(*r),
        }
    }
}

/// What the rebuild registry knows of the job that rebuilds a child.
#[derive(Debug)]
pub struct RebuildJob {
    /// Name of the nexus that the job works for.
    pub nexus: String,
    /// How far the job has come, in percent.
    pub progress: u32,
}

/// The mathematical value of a [`NexusChild`].
pub ghost struct ChildModel {
    pub parent: Seq<char>,
    pub name: Seq<char>,
    pub bdev: Option<BdevModel>,
    pub desc: Option<Descriptor>,
    pub handle: Option<BdevHandle>,
    pub state: ChildState,
    pub err_store: Option<ErrStoreModel>,
    /// The actions that the child wants done and that nobody has taken yet,
    /// oldest first.
    pub pending: Seq<ChildAction>,
}

/// The error history that a child gets when it opens.
pub open spec fn store_for(opts: ErrStoreOpts) -> Option<ErrStoreModel> {
    if opts.enable_err_store {
        Some(ErrStoreModel::empty(opts.err_store_size as nat))
    } else {
        None
    }
}

/// The reason of a fault for which none or this one was given.
pub open spec fn reason_or_undefined(reason: Option<Reason>) -> Reason {
    match reason {
        Some(r) => r,
        None => Reason::Undefined,
    }
}

impl ChildModel {
    /// A child that was just made.
    pub open spec fn init(
        name: Seq<char>,
        parent: Seq<char>,
        bdev: Option<BdevModel>,
    ) -> ChildModel {
        ChildModel {
            parent,
            name,
            bdev,
            desc: None,
            handle: None,
            state: ChildState::Init,
            err_store: None,
            pending: Seq::empty(),
        }
    }

    /// An open child has its block device, its descriptor and an I/O handle
    /// on that descriptor; a child in any other state has neither
    /// descriptor nor handle.
    pub open spec fn wf(self) -> bool {
        &&& self.state == ChildState::Open ==> self.bdev.is_some() && self.desc.is_some()
            && self.handle.is_some() && self.handle.unwrap().desc == self.desc.unwrap()
        &&& self.state != ChildState::Open ==> self.desc.is_none() && self.handle.is_none()
        &&& self.bdev matches Some(bdev) ==> bdev.wf()
        &&& self.err_store matches Some(store) ==> store.wf()
    }

    /// What releasing the child's resources asks for: the claim, where there
    /// is a block device; then the handle; then the descriptor.
    pub open spec fn release_actions(self) -> Seq<ChildAction> {
        (if self.bdev.is_some() {
            seq![ChildAction::ReleaseClaim]
        } else {
            Seq::empty()
        }) + (match self.handle {
            Some(handle) => seq![ChildAction::DropHandle(handle)],
            None => Seq::empty(),
        }) + (match self.desc {
            Some(desc) => seq![ChildAction::DropDescriptor(desc)],
            None => Seq::empty(),
        })
    }

    /// The child after it let go of descriptor and handle.
    pub open spec fn released(self) -> ChildModel {
        ChildModel {
            desc: None,
            handle: None,
            pending: self.pending + self.release_actions(),
            ..self
        }
    }

    /// The child after a change of state. The change is followed by the
    /// request to save the states.
    pub open spec fn moved_to(self, state: ChildState) -> ChildModel {
        ChildModel { state, pending: self.pending.push(ChildAction::SaveState), ..self }
    }

    /// The child after `close`.
    pub open spec fn closed(self) -> ChildModel {
        self.released().moved_to(ChildState::Closed)
    }

    /// The child after `fault`.
    pub open spec fn faulted(self, reason: Option<Reason>) -> ChildModel {
        self.released().moved_to(ChildState::Faulted(reason_or_undefined(reason)))
    }

    /// The child after `out_of_sync`.
    pub open spec fn marked_out_of_sync(self, out_of_sync: bool) -> ChildModel {
        if out_of_sync {
            self.faulted(Some(Reason::OutOfSync))
        } else {
            self
        }
    }

    /// The child after it was found too small for its parent. An open child
    /// lets go of its resources first.
    pub open spec fn rejected(self) -> ChildModel {
        (if self.state == ChildState::Open {
            self.released()
        } else {
            self
        }).moved_to(ChildState::ConfigInvalid)
    }

    /// The child after it opened with the handle `handle`.
    pub open spec fn opened_with(self, handle: BdevHandle, opts: ErrStoreOpts) -> ChildModel {
        ChildModel {
            desc: Some(handle.desc),
            handle: Some(handle),
            err_store: store_for(opts),
            ..self
        }.moved_to(ChildState::Open)
    }

    /// The child after a claim that left a descriptor but no handle: the
    /// claim and the descriptor are released, and the child is faulted.
    pub open spec fn failed_with(self, desc: Descriptor) -> ChildModel {
        ChildModel { desc: Some(desc), ..self }.faulted(Some(Reason::CantOpen))
    }

    /// Whether `parent_size` is more than the child's block device holds.
    pub open spec fn too_small_for(self, parent_size: u64) -> bool {
        self.bdev matches Some(bdev) && parent_size > bdev.size_in_bytes()
    }

    /// The child after `open`.
    pub open spec fn after_open(
        self,
        parent_size: u64,
        claim: Option<ClaimOutcomeModel>,
        opts: ErrStoreOpts,
    ) -> ChildModel {
        if self.state is Faulted || self.bdev.is_none() {
            self
        } else if self.too_small_for(parent_size) {
            self.rejected()
        } else if self.state == ChildState::Open {
            ChildModel { err_store: store_for(opts), ..self }.moved_to(ChildState::Open)
        } else {
            match claim {
                None => self,
                Some(ClaimOutcomeModel::Refused(_)) => self.moved_to(
                    ChildState::Faulted(Reason::CantOpen),
                ),
                Some(ClaimOutcomeModel::NoHandle { desc, .. }) => self.failed_with(desc),
                Some(ClaimOutcomeModel::Claimed(handle)) => self.opened_with(handle, opts),
            }
        }
    }

    /// What `open` answers.
    pub open spec fn open_answer(
        self,
        parent_size: u64,
        claim: Option<ClaimOutcomeModel>,
    ) -> OpenStepModel {
        if self.state is Faulted {
            OpenStepModel::Done(Err(ChildErrorModel::ChildFaulted))
        } else if self.bdev.is_none() {
            OpenStepModel::Done(Err(ChildErrorModel::OpenWithoutBdev))
        } else if self.too_small_for(parent_size) {
            OpenStepModel::Done(
                Err(
                    ChildErrorModel::ChildTooSmall {
                        child_size: self.bdev.unwrap().size_in_bytes() as u64,
                        parent_size,
                    },
                ),
            )
        } else if self.state == ChildState::Open {
            OpenStepModel::Done(Ok(self.name))
        } else {
            match claim {
                None => OpenStepModel::Claim { bdev_name: self.bdev.unwrap().name },
                Some(ClaimOutcomeModel::Refused(source)) => OpenStepModel::Done(
                    Err(ChildErrorModel::OpenChild { source }),
                ),
                Some(ClaimOutcomeModel::NoHandle { source, .. }) => OpenStepModel::Done(
                    Err(ChildErrorModel::HandleCreate { source }),
                ),
                Some(ClaimOutcomeModel::Claimed(_)) => OpenStepModel::Done(Ok(self.name)),
            }
        }
    }

    /// The line that describes the child: its name, its state, and the
    /// geometry of its block device where it has one.
    pub open spec fn description(self) -> Seq<char> {
        match self.bdev {
            Some(bdev) => self.name + ": "@ + state_name(self.state) + "/"@ + state_name(
                self.state,
            ) + ", blk_cnt: "@ + decimal_text(bdev.num_blocks as nat) + ", blk_size: "@
                + decimal_text(bdev.block_len as nat) + "\n"@,
            None => self.name + ": state "@ + state_name(self.state) + "/"@ + state_name(
                self.state,
            ) + "\n"@,
        }
    }

    /// The child after an I/O error of this kind was seen at the time `now`:
    /// the error is in the history, where the child keeps one.
    pub open spec fn recorded(self, kind: IoErrorKind, now: u64) -> ChildModel {
        ChildModel {
            err_store: match self.err_store {
                Some(store) => Some(store.added(ErrRecord { kind, timestamp: now })),
                None => None,
            },
            ..self
        }
    }

    /// The child after a step of a transfer: a failure is recorded.
    pub open spec fn noted(self, failure: Option<IoErrorKind>, now: u64) -> ChildModel {
        match failure {
            Some(kind) => self.recorded(kind, now),
            None => self,
        }
    }

    /// Whether the child is being rebuilt, given whether a rebuild job
    /// exists for it.
    pub open spec fn rebuilding(self, job_exists: bool) -> bool {
        job_exists && self.state == ChildState::Faulted(Reason::OutOfSync)
    }

    /// What `destroy` answers. `done` is how the destructor of the block
    /// device ended, if it has run.
    pub open spec fn destroy_step<E>(self, done: Option<Result<(), E>>) -> DestroyStepModel<E> {
        if self.state != ChildState::Closed {
            DestroyStepModel::Refused(ChildErrorModel::ChildNotClosed)
        } else if self.bdev.is_none() {
            DestroyStepModel::Done(Ok(()))
        } else {
            match done {
                None => DestroyStepModel::DestroyBdev { name: self.name },
                Some(result) => DestroyStepModel::Done(result),
            }
        }
    }

    /// Where a transfer at `offset` stands. `done` is how the transfer
    /// ended, if it has run; `failure` makes the child's error of the
    /// driver's.
    pub open spec fn io_step<T>(
        self,
        offset: u64,
        done: Option<Result<T, CoreErrorModel>>,
        failure: spec_fn(CoreErrorModel, Seq<char>) -> ChildIoErrorModel,
    ) -> IoStepModel<T> {
        match self.handle {
            None => IoStepModel::Done(
                Err(ChildIoErrorModel::InvalidDescriptor { name: self.name }),
            ),
            Some(handle) => match done {
                None => IoStepModel::Submit { handle, offset },
                Some(Ok(n)) => IoStepModel::Done(Ok(n)),
                Some(Err(source)) => IoStepModel::Done(Err(failure(source, self.name))),
            },
        }
    }
}

/// The kind of error that a finished transfer is recorded under: a transfer
/// that failed in the driver under `transfer`, one that found no handle as
/// an invalid descriptor, and no other.
pub open spec fn failure_kind<T>(step: IoStepModel<T>, transfer: IoErrorKind) -> Option<
    IoErrorKind,
> {
    match step {
        IoStepModel::Done(Err(ChildIoErrorModel::InvalidDescriptor { .. })) => Some(
            IoErrorKind::InvalidDescriptor,
        ),
        IoStepModel::Done(Err(_)) => Some(transfer),
        _ => None,
    }
}

/// The write error that a child makes of an error of the driver.
pub open spec fn write_failure(source: CoreErrorModel, name: Seq<char>) -> ChildIoErrorModel {
    ChildIoErrorModel::WriteError { source, name }
}

/// The read error that a child makes of an error of the driver.
pub open spec fn read_failure(source: CoreErrorModel, name: Seq<char>) -> ChildIoErrorModel {
    ChildIoErrorModel::ReadError { source, name }
}

/// How a transfer ended, as the specifications see it.
pub open spec fn done_view<T>(done: Option<Result<T, CoreError>>) -> Option<
    Result<T, CoreErrorModel>,
> {
    match done {
        None => None,
        Some(Ok(n)) => Some(Ok(n)),
        Some(Err(e)) => Some(Err(e@)),
    }
}

/// One child of a nexus.
#[derive(Debug)]
pub struct NexusChild {
    /// Name of the parent that this child belongs to.
    parent: String,
    /// Name of the child: the URI that it was made from. The name of the
    /// block device can differ from it.
    name: String,
    bdev: Option<Bdev>,
    desc: Option<Descriptor>,
    state: ChildState,
    bdev_handle: Option<BdevHandle>,
    /// Record of the most recent I/O errors.
    err_store: Option<NexusErrStore>,
    pending: Vec<ChildAction>,
}

/// The block device of a child, if it has one, as the model sees it.
pub open spec fn bdev_view(bdev: Option<Bdev>) -> Option<BdevModel> {
    match bdev {
        Some(b) => Some(b@),
        None => None,
    }
}

/// The error history of a child, if it has one, as the model sees it.
pub open spec fn store_view(store: Option<NexusErrStore>) -> Option<ErrStoreModel> {
    match store {
        Some(s) => Some(s@),
        None => None,
    }
}

impl View for NexusChild {
    type V = ChildModel;

    closed spec fn view(&self) -> ChildModel {
        ChildModel {
            parent: self.parent@,
            name: self.name@,
            bdev: bdev_view(self.bdev),
            desc: self.desc,
            handle: self.bdev_handle,
            state: self.state,
            err_store: store_view(self.err_store),
            pending: self.pending@,
        }
    }
}

impl NexusChild {
    /// The child is in order: its model is, and so is its error history.
    pub closed spec fn wf(&self) -> bool {
        &&& self@.wf()
        &&& self.err_store matches Some(store) ==> store.wf()
    }

    /// A child in order has a model in order.
    pub proof fn lemma_wf_view(&self)
        requires
            self.wf(),
        ensures
            self@.wf(),
    {
    }

    /// Creates a child in state `Init`.
    pub fn new(name: String, parent: String, bdev: Option<Bdev>) -> (child: NexusChild)
        ensures
            child.wf(),
            child@ == ChildModel::init(name@, parent@, bdev_view(bdev)),
    {
        match &bdev {
            Some(b) => {
                proof {
                    use_type_invariant(b);
                }
            },
            None => {},
        }
        NexusChild {
            name,
            bdev,
            parent,
            desc: None,
            state: ChildState::Init,
            bdev_handle: None,
            err_store: None,
            pending: Vec::new(),
        }
    }

    fn set_state(&mut self, state: ChildState)
        ensures
            final(self)@ == (ChildModel { state, ..old(self)@ }),
            final(self).err_store == old(self).err_store,
    {
        self.state = state;
    }

    /// Asks for the states of the children to be saved.
    fn save_state_change(&mut self)
        ensures
            final(self)@ == (ChildModel {
                pending: old(self)@.pending.push(ChildAction::SaveState),
                ..old(self)@
            }),
            final(self).err_store == old(self).err_store,
    {
        self.pending.push(ChildAction::SaveState);
    }

    /// Lets go of the descriptor and of the handle. The block device is not
    /// destroyed.
    fn _close(&mut self)
        ensures
            final(self)@ == old(self)@.released(),
            final(self).err_store == old(self).err_store,
    {
        if self.bdev.is_some() {
            self.pending.push(ChildAction::ReleaseClaim);
        }
        // The handle refers to the descriptor: it goes first.
        let hdl = self.bdev_handle.take();
        let desc = self.desc.take();
        match hdl {
            Some(handle) => {
                self.pending.push(ChildAction::DropHandle(handle));
            },
            None => {},
        }
        match desc {
            Some(desc) => {
                self.pending.push(ChildAction::DropDescriptor(desc));
            },
            None => {},
        }
        assert(self@.pending =~= old(self)@.pending + old(self)@.release_actions());
    }

    /// Opens the child for reading and writing and claims its block device.
    ///
    /// A faulted child is not opened, nor one without block device. A child
    /// whose device is smaller than `parent_size` becomes `ConfigInvalid`.
    /// A child that is open already stays open and claims nothing anew. For
    /// any other child the device has to be claimed: while `claim` is
    /// `None` the answer asks for that and the child stays as it is. With
    /// the outcome of the claim the child becomes `Open`, or `Faulted`
    /// because it cannot be opened. A child that opens gets a new error
    /// history where `opts` enables one, and loses the one it had where not.
    pub fn open(
        &mut self,
        parent_size: u64,
        claim: Option<ClaimOutcome>,
        opts: &ErrStoreOpts,
    ) -> (step: OpenStep)
        requires
            old(self).wf(),
        ensures
            final(self).wf(),
            final(self)@ == old(self)@.after_open(parent_size, claim_view(claim), *opts),
            step@ == old(self)@.open_answer(parent_size, claim_view(claim)),
    {
        match self.state {
            ChildState::Faulted(_) => {
                return OpenStep::Done(Err(ChildError::ChildFaulted {  }));
            },
            _ => {},
        }
        let child_size = match &self.bdev {
            Some(bdev) => bdev.size_in_bytes(),
            None => {
                return OpenStep::Done(Err(ChildError::OpenWithoutBdev {  }));
            },
        };
        if parent_size > child_size {
            if self.state == ChildState::Open {
                self._close();
            }
            self.set_state(ChildState::ConfigInvalid);
            self.save_state_change();
            return OpenStep::Done(Err(ChildError::ChildTooSmall { parent_size, child_size }));
        }
        if self.state != ChildState::Open {
            match claim {
                None => {
                    let bdev_name = match &self.bdev {
                        Some(bdev) => String::from_str(bdev.name()),
                        None => String::new(),
                    };
                    return OpenStep::Claim { bdev_name };
                },
                Some(ClaimOutcome::Refused(source)) => {
                    self.set_state(ChildState::Faulted(Reason::CantOpen));
                    self.save_state_change();
                    return OpenStep::Done(Err(ChildError::OpenChild { source }));
                },
                Some(ClaimOutcome::NoHandle { desc, source }) => {
                    self.desc = Some(desc);
                    self._close();
                    self.set_state(ChildState::Faulted(Reason::CantOpen));
                    self.save_state_change();
                    return OpenStep::Done(Err(ChildError::HandleCreate { source }));
                },
                Some(ClaimOutcome::Claimed(handle)) => {
                    self.bdev_handle = Some(handle);
                    self.desc = Some(handle.desc);
                },
            }
        }
        self.err_store = if opts.enable_err_store {
            Some(NexusErrStore::new(opts.err_store_size))
        } else {
            None
        };
        self.set_state(ChildState::Open);
        self.save_state_change();
        OpenStep::Done(Ok(self.name.clone()))
    }

    /// Faults the child, with a reason or without one.
    pub fn fault(&mut self, reason: Option<Reason>)
        requires
            old(self).wf(),
        ensures
            final(self).wf(),
            final(self)@ == old(self)@.faulted(reason),
    {
        self._close();
        match reason {
            Some(r) => self.set_state(ChildState::Faulted(r)),
            None => self.set_state(ChildState::Faulted(Reason::Undefined)),
        }
        self.save_state_change();
    }

    /// Marks the child as out of sync with the nexus. It has to be rebuilt
    /// in full before it can serve I/O again. Nothing takes the mark away:
    /// `false` changes nothing.
    pub fn out_of_sync(&mut self, out_of_sync: bool)
        requires
            old(self).wf(),
        ensures
            final(self).wf(),
            final(self)@ == old(self)@.marked_out_of_sync(out_of_sync),
    {
        if out_of_sync {
            self.fault(Some(Reason::OutOfSync));
        }
    }

    /// Takes the child offline for a while.
    pub fn offline(&mut self)
        requires
            old(self).wf(),
        ensures
            final(self).wf(),
            final(self)@ == old(self)@.closed(),
    {
        self.close();
    }

    /// Brings a child back that was taken offline.
    pub fn online(
        &mut self,
        parent_size: u64,
        claim: Option<ClaimOutcome>,
        opts: &ErrStoreOpts,
    ) -> (step: OpenStep)
        requires
            old(self).wf(),
        ensures
            final(self).wf(),
            final(self)@ == old(self)@.after_open(parent_size, claim_view(claim), *opts),
            step@ == old(self)@.open_answer(parent_size, claim_view(claim)),
    {
        self.open(parent_size, claim, opts)
    }

    /// The state of the child.
    pub fn status(&self) -> (state: ChildState)
        ensures
            state == self@.state,
    {
        self.state
    }

    /// What the outside sees of the child's state. `job` is the rebuild job
    /// that the registry holds for the child, if any.
    pub fn external_status(&self, job: Option<&RebuildJob>) -> (status: ChildStatus)
        ensures
            status == status_of(self@.state, job.is_some()),
    {
        project_status(self.state, job.is_some())
    }

    /// Whether the child is being rebuilt. `job` is the rebuild job that
    /// the registry holds for the child, if any.
    pub fn rebuilding(&self, job: Option<&RebuildJob>) -> (r: bool)
        ensures
            r == self@.rebuilding(job.is_some()),
    {
        match job {
            Some(_) => self.state == ChildState::Faulted(Reason::OutOfSync),
            None => false,
        }
    }

    /// The descriptor of the child.
    pub fn get_descriptor(&self) -> (r: Result<Descriptor, CoreError>)
        ensures
            match r {
                Ok(desc) => self@.desc == Some(desc),
                Err(e) => self@.desc.is_none() && e@ == (CoreErrorModel::InvalidDescriptor {
                    name: self@.name,
                }),
            },
    {
        match self.desc {
            Some(d) => Ok(d),
            None => Err(CoreError::InvalidDescriptor { name: self.name.clone() }),
        }
    }

    /// Closes the child: it lets go of its descriptor and handle and becomes
    /// `Closed`. Whether the driver released anything cannot be told.
    pub fn close(&mut self) -> (state: ChildState)
        requires
            old(self).wf(),
        ensures
            final(self).wf(),
            final(self)@ == old(self)@.closed(),
            state == ChildState::Closed,
    {
        self._close();
        self.set_state(ChildState::Closed);
        self.save_state_change();
        ChildState::Closed
    }

    /// Destroys the block device of a closed child. A child in another
    /// state is refused. A child without block device has nothing to
    /// destroy. `done` is how the destructor ended, if it has run.
    pub fn destroy<E>(&self, done: Option<Result<(), E>>) -> (step: DestroyStep<E>)
        ensures
            step@ == self@.destroy_step(done),
    {
        if self.state != ChildState::Closed {
            return DestroyStep::Refused(ChildError::ChildNotClosed {  });
        }
        if self.bdev.is_some() {
            match done {
                None => DestroyStep::DestroyBdev { name: self.name.clone() },
                Some(result) => DestroyStep::Done(result),
            }
        } else {
            DestroyStep::Done(Ok(()))
        }
    }

    /// Whether the child can be read and written.
    pub fn can_rw(&self) -> (r: bool)
        ensures
            r == (self@.state == ChildState::Open),
    {
        self.state == ChildState::Open
    }

    /// The block device and the handle of the child. Both are there for a
    /// child that can be read and written.
    pub fn get_dev(&self) -> (r: Result<(&Bdev, &BdevHandle), ChildError>)
        ensures
            match r {
                Ok((bdev, handle)) => self@.state == ChildState::Open && self@.bdev == Some(bdev@)
                    && self@.handle == Some(*handle),
                Err(e) => if self@.state != ChildState::Open {
                    e@ == ChildErrorModel::ChildClosed
                } else {
                    e@ == ChildErrorModel::ChildInvalid && !self.wf()
                },
            },
    {
        if !self.can_rw() {
            return Err(ChildError::ChildClosed {  });
        }
        match &self.bdev {
            Some(bdev) => match &self.bdev_handle {
                Some(desc) => {
                    return Ok((bdev, desc));
                },
                None => {},
            },
            None => {},
        }
        Err(ChildError::ChildInvalid {  })
    }

    /// Writes to the child at `offset`. `done` is how the write ended, if
    /// it has run: the number of bytes written, or the driver's error. A
    /// write that fails is recorded in the error history with the time
    /// `now`, where the child keeps one.
    pub fn write_at(
        &mut self,
        offset: u64,
        done: Option<Result<usize, CoreError>>,
        now: u64,
    ) -> (step: IoStep<usize>)
        requires
            old(self).wf(),
        ensures
            final(self).wf(),
            step@ == old(self)@.io_step(
                offset,
                done_view(done),
                |source: CoreErrorModel, name: Seq<char>| write_failure(source, name),
            ),
            final(self)@ == old(self)@.noted(failure_kind(step@, IoErrorKind::Write), now),
    {
        match self.bdev_handle {
            Some(handle) => match done {
                None => IoStep::Submit { handle, offset },
                Some(Ok(n)) => IoStep::Done(Ok(n)),
                Some(Err(source)) => {
                    self.record_error(IoErrorKind::Write, now);
                    IoStep::Done(Err(ChildIoError::WriteError { source, name: self.name.clone() }))
                },
            },
            None => {
                self.record_error(IoErrorKind::InvalidDescriptor, now);
                IoStep::Done(Err(ChildIoError::InvalidDescriptor { name: self.name.clone() }))
            },
        }
    }

    /// Reads from the child at `offset`. `done` is how the read ended, if
    /// it has run: the number of bytes read, or the driver's error. A read
    /// that fails is recorded in the error history with the time `now`,
    /// where the child keeps one.
    pub fn read_at(
        &mut self,
        offset: u64,
        done: Option<Result<u64, CoreError>>,
        now: u64,
    ) -> (step: IoStep<u64>)
        requires
            old(self).wf(),
        ensures
            final(self).wf(),
            step@ == old(self)@.io_step(
                offset,
                done_view(done),
                |source: CoreErrorModel, name: Seq<char>| read_failure(source, name),
            ),
            final(self)@ == old(self)@.noted(failure_kind(step@, IoErrorKind::Read), now),
    {
        match self.bdev_handle {
            Some(handle) => match done {
                None => IoStep::Submit { handle, offset },
                Some(Ok(n)) => IoStep::Done(Ok(n)),
                Some(Err(source)) => {
                    self.record_error(IoErrorKind::Read, now);
                    IoStep::Done(Err(ChildIoError::ReadError { source, name: self.name.clone() }))
                },
            },
            None => {
                self.record_error(IoErrorKind::InvalidDescriptor, now);
                IoStep::Done(Err(ChildIoError::InvalidDescriptor { name: self.name.clone() }))
            },
        }
    }

    /// How far the rebuild of the child has come, in percent, or `-1` for a
    /// child that no job rebuilds. `job` is the rebuild job that the
    /// registry holds for the child, if any; it works for the child's
    /// parent.
    pub fn get_rebuild_progress(&self, job: Option<&RebuildJob>) -> (progress: i32)
        requires
            job matches Some(j) ==> j.nexus@ == self@.parent && j.progress <= 100,
        ensures
            progress == (match job {
                Some(j) => j.progress as int,
                None => -1,
            }),
            progress == -1 <==> job.is_none(),
    {
        match job {
            Some(j) => j.progress as i32,
            None => -1,
        }
    }

    /// Adds an I/O error to the child's error history, if it keeps one.
    pub fn record_error(&mut self, kind: IoErrorKind, timestamp: u64)
        requires
            old(self).wf(),
        ensures
            final(self).wf(),
            final(self)@ == old(self)@.recorded(kind, timestamp),
    {
        match &mut self.err_store {
            Some(store) => {
                store.add_record(kind, timestamp);
            },
            None => {},
        }
    }

    /// Hands out the actions that the child wants done, oldest first. They
    /// are to be carried out in this order.
    pub fn take_actions(&mut self) -> (actions: Vec<ChildAction>)
        ensures
            actions@ == old(self)@.pending,
            final(self)@ == (ChildModel { pending: Seq::empty(), ..old(self)@ }),
            old(self).wf() ==> final(self).wf(),
    {
        let mut actions: Vec<ChildAction> = Vec::new();
        std::mem::swap(&mut actions, &mut self.pending);
        actions
    }

    /// Name of the child.
    pub fn name(&self) -> (name: &str)
        ensures
            name@ == self@.name,
    {
        self.name.as_str()
    }

    /// Name of the child's parent.
    pub fn parent(&self) -> (parent: &str)
        ensures
            parent@ == self@.parent,
    {
        self.parent.as_str()
    }

    /// The child's block device, if it has one.
    pub fn bdev(&self) -> (bdev: Option<&Bdev>)
        ensures
            match bdev {
                Some(b) => self@.bdev == Some(b@),
                None => self@.bdev.is_none(),
            },
    {
        self.bdev.as_ref()
    }

    /// The child's error history, if it keeps one.
    pub fn err_store(&self) -> (store: Option<&NexusErrStore>)
        ensures
            match store {
                Some(s) => self@.err_store == Some(s@) && (self.wf() ==> s.wf()),
                None => self@.err_store.is_none(),
            },
    {
        self.err_store.as_ref()
    }

    /// Describes the child in one line.
    pub fn to_string(&self) -> (s: String)
        ensures
            s@ == self@.description(),
    {
        let state = self.state.name();
        let mut s = self.name.clone();
        match &self.bdev {
            Some(bdev) => {
                s.append(": ");
                s.append(state.as_str());
                s.append("/");
                s.append(state.as_str());
                s.append(", blk_cnt: ");
                let blocks = decimal(bdev.num_blocks());
                s.append(blocks.as_str());
                s.append(", blk_size: ");
                let len = decimal(bdev.block_len() as u64);
                s.append(len.as_str());
                s.append("\n");
            },
            None => {
                s.append(": state ");
                s.append(state.as_str());
                s.append("/");
                s.append(state.as_str());
                s.append("\n");
            },
        }
        s
    }
}

/// An open child has its block device, its descriptor and its I/O handle,
/// and the handle is one on that descriptor.
pub proof fn lemma_open_child_has_resources(child: ChildModel)
    requires
        child.wf(),
        child.state == ChildState::Open,
    ensures
        child.bdev.is_some(),
        child.desc.is_some(),
        child.handle.is_some(),
        child.handle.unwrap().desc == child.desc.unwrap(),
{
}

/// A child that is closed or faulted holds neither descriptor nor handle.
pub proof fn lemma_closed_or_faulted_child_holds_nothing(child: ChildModel)
    requires
        child.wf(),
        child.state == ChildState::Closed || child.state is Faulted,
    ensures
        child.desc.is_none(),
        child.handle.is_none(),
{
}

/// An operation on a child that is in order leaves it in order, whatever
/// the driver answered to a claim.
pub proof fn lemma_operations_keep_wf(
    child: ChildModel,
    parent_size: u64,
    claim: Option<ClaimOutcomeModel>,
    opts: ErrStoreOpts,
    reason: Option<Reason>,
    out_of_sync: bool,
)
    requires
        child.wf(),
    ensures
        child.closed().wf(),
        child.faulted(reason).wf(),
        child.marked_out_of_sync(out_of_sync).wf(),
        child.after_open(parent_size, claim, opts).wf(),
{
}

/// After `close` the child is closed, and a second `close` changes nothing
/// of it: it only asks once more for the claim to be released and for the
/// states to be saved.
pub proof fn lemma_close_is_idempotent(child: ChildModel)
    ensures
        child.closed().state == ChildState::Closed,
        child.closed().closed() == (ChildModel {
            pending: child.closed().closed().pending,
            ..child.closed()
        }),
        child.closed().closed().pending == child.closed().pending + (if child.bdev.is_some() {
            seq![ChildAction::ReleaseClaim, ChildAction::SaveState]
        } else {
            seq![ChildAction::SaveState]
        }),
{
}

/// What `close` and `fault` ask for comes in this order: the release of the
/// claim, the drop of the handle, the drop of the descriptor, and last, once
/// the new state stands, the saving of the states.
pub proof fn lemma_release_then_save(child: ChildModel, reason: Option<Reason>)
    ensures
        child.closed().pending == child.pending + child.release_actions().push(
            ChildAction::SaveState,
        ),
        child.faulted(reason).pending == child.pending + child.release_actions().push(
            ChildAction::SaveState,
        ),
        child.wf() && child.state == ChildState::Open ==> child.release_actions()
            == seq![
            ChildAction::ReleaseClaim,
            ChildAction::DropHandle(child.handle.unwrap()),
            ChildAction::DropDescriptor(child.desc.unwrap()),
        ],
{
}

/// A child that is not closed is not destroyed, whatever else holds of it.
pub proof fn lemma_destroy_needs_closed<E>(child: ChildModel, done: Option<Result<(), E>>)
    requires
        child.state != ChildState::Closed,
    ensures
        child.destroy_step(done) == DestroyStepModel::<E>::Refused(
            ChildErrorModel::ChildNotClosed,
        ),
{
}

/// A child that is large enough and whose claims are granted can be opened,
/// closed and opened again, and is then open, closed and open.
pub proof fn lemma_open_close_open(
    child: ChildModel,
    parent_size: u64,
    first: BdevHandle,
    second: BdevHandle,
    opts: ErrStoreOpts,
)
    requires
        child.wf(),
        !(child.state is Faulted),
        child.bdev.is_some(),
        !child.too_small_for(parent_size),
    ensures
        ({
            let opened = child.after_open(
                parent_size,
                Some(ClaimOutcomeModel::Claimed(first)),
                opts,
            );
            let closed = opened.closed();
            let reopened = closed.after_open(
                parent_size,
                Some(ClaimOutcomeModel::Claimed(second)),
                opts,
            );
            &&& opened.state == ChildState::Open
            &&& child.open_answer(parent_size, Some(ClaimOutcomeModel::Claimed(first)))
                == OpenStepModel::Done(Ok(child.name))
            &&& closed.state == ChildState::Closed
            &&& reopened.state == ChildState::Open
            &&& closed.open_answer(parent_size, Some(ClaimOutcomeModel::Claimed(second)))
                == OpenStepModel::Done(Ok(child.name))
            &&& reopened.handle == Some(second)
            &&& reopened.wf()
        }),
{
}

/// A child opens for a parent of exactly its size and is refused as too
/// small, and becomes `ConfigInvalid`, for a parent one byte larger.
pub proof fn lemma_size_boundary(
    child: ChildModel,
    handle: BdevHandle,
    claim: Option<ClaimOutcomeModel>,
    opts: ErrStoreOpts,
)
    requires
        child.wf(),
        !(child.state is Faulted),
        child.bdev.is_some(),
        child.bdev.unwrap().size_in_bytes() < u64::MAX,
    ensures
        ({
            let size = child.bdev.unwrap().size_in_bytes() as u64;
            let granted = Some(ClaimOutcomeModel::Claimed(handle));
            &&& child.after_open(size, granted, opts).state == ChildState::Open
            &&& child.open_answer(size, granted) == OpenStepModel::Done(Ok(child.name))
            &&& child.after_open((size + 1) as u64, claim, opts).state == ChildState::ConfigInvalid
            &&& child.open_answer((size + 1) as u64, claim) == OpenStepModel::Done(
                Err(
                    ChildErrorModel::ChildTooSmall {
                        child_size: size,
                        parent_size: (size + 1) as u64,
                    },
                ),
            )
        }),
{
}

/// A child is open after `open` only if its block device holds what the
/// parent asked for.
pub proof fn lemma_open_only_if_large_enough(
    child: ChildModel,
    parent_size: u64,
    claim: Option<ClaimOutcomeModel>,
    opts: ErrStoreOpts,
)
    requires
        child.wf(),
        child.after_open(parent_size, claim, opts).state == ChildState::Open,
    ensures
        child.bdev.is_some(),
        child.bdev.unwrap().size_in_bytes() >= parent_size,
        child.open_answer(parent_size, claim) == OpenStepModel::Done(Ok(child.name))
            || child.open_answer(parent_size, claim) is Claim,
{
}

/// A faulted child is not opened: `open` refuses and leaves it as it is.
pub proof fn lemma_faulted_child_stays_faulted(
    child: ChildModel,
    parent_size: u64,
    claim: Option<ClaimOutcomeModel>,
    opts: ErrStoreOpts,
)
    requires
        child.state is Faulted,
    ensures
        child.after_open(parent_size, claim, opts) == child,
        child.open_answer(parent_size, claim) == OpenStepModel::Done(
            Err(ChildErrorModel::ChildFaulted),
        ),
{
}

/// A child that was marked as out of sync is faulted for that reason. The
/// outside sees it as degraded exactly while a rebuild job exists for it,
/// that is, while it is being rebuilt. Taking the mark away does nothing.
pub proof fn lemma_out_of_sync_is_degraded_while_rebuilding(child: ChildModel, job_exists: bool)
    ensures
        child.marked_out_of_sync(true).state == ChildState::Faulted(Reason::OutOfSync),
        child.marked_out_of_sync(false) == child,
        status_of(child.marked_out_of_sync(true).state, job_exists) == (if job_exists {
            ChildStatus::Degraded
        } else {
            ChildStatus::Faulted
        }),
        status_of(child.state, job_exists) == ChildStatus::Degraded <==> child.rebuilding(
            job_exists,
        ),
{
}

} // verus!
