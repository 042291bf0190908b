//! Handles of graphics memory.

use mesa3d_util::{MesaHandle, OwnedDescriptor};
use vstd::prelude::*;

verus! {

/// A descriptor.
#[verifier::external_type_specification]
#[verifier::external_body]
pub struct ExOwnedDescriptor(OwnedDescriptor);

/// A handle: a descriptor and what it stands for.
#[verifier::external_type_specification]
pub struct ExMesaHandle(MesaHandle);

/// `mesa3d_util::OwnedDescriptor::try_clone`: a descriptor of the same file, if
/// the system has one left. Nothing is claimed of it.
#[verifier::external_body]
pub fn descriptor_clone(fd: &OwnedDescriptor) -> (clone: Option<OwnedDescriptor>) {
    fd.try_clone().ok()
}

/// `mesa3d_util::MesaHandle::try_clone`: a handle of the same memory, if the
/// system has a descriptor left. The clone is of the same type; nothing is claimed
/// of its descriptor.
#[verifier::external_body]
pub fn mesa_handle_clone(handle: &MesaHandle) -> (clone: Option<MesaHandle>)
    ensures
        clone matches Some(c) ==> c.handle_type == handle.handle_type,
{
    handle.try_clone().ok()
}

/// What can go wrong with a handle.
#[derive(Clone, Copy, Debug, PartialEq, Eq, Structural)]
pub enum HandleError {
    /// The handle is not of the wanted kind, or could not be cloned.
    InvalidMesaHandle,
}

/// A buffer of the system: its descriptors, and what tells its layout.
pub struct AhbInfo {
    pub fds: Vec<OwnedDescriptor>,
    pub metadata: Vec<u8>,
}

impl AhbInfo {
    /// Whether this is a clone: each descriptor is the clone of the one in its
    /// place, and the layout is the same.
    pub open spec fn is_clone_of(self, from: AhbInfo) -> bool {
        &&& self.fds@.len() == from.fds@.len()
        &&& forall|i: int|
            0 <= i < self.fds@.len() ==> #[trigger] call_ensures(
                descriptor_clone,
                (&from.fds@[i],),
                Some(self.fds@[i]),
            )
        &&& self.metadata@ == from.metadata@
    }

    /// Whether a descriptor could not be cloned.
    pub open spec fn clone_failed(self) -> bool {
        exists|i: int|
            0 <= i < self.fds@.len() && #[trigger] call_ensures(
                descriptor_clone,
                (&self.fds@[i],),
                None,
            )
    }

    /// Another handle of the same buffer. If any descriptor cannot be cloned,
    /// there is none. Which file a clone stands for is not stated.
    pub fn try_clone(&self) -> (r: Result<AhbInfo, HandleError>)
        ensures
            match r {
                Ok(info) => info.is_clone_of(*self),
                Err(e) => e == HandleError::InvalidMesaHandle && self.clone_failed(),
            },
    {
        let fds: Vec<OwnedDescriptor> = match clone_all(&self.fds, descriptor_clone) {
            Ok(fds) => fds,
            Err(e) => {
                return Err(e);
            },
        };
        let metadata: Vec<u8> = vstd::slice::slice_to_vec(self.metadata.as_slice());
        assert(metadata@ =~= self.metadata@);
        Ok(AhbInfo { fds, metadata })
    }
}

/// The clones of all descriptors, which `f` makes one after the other until one
/// cannot be made.
fn clone_all<F: Fn(&OwnedDescriptor) -> Option<OwnedDescriptor>>(
    fds: &Vec<OwnedDescriptor>,
    f: F,
) -> (r: Result<Vec<OwnedDescriptor>, HandleError>)
    requires
        forall|fd: &OwnedDescriptor| call_requires(f, (fd,)),
    ensures
        match r {
            Ok(clones) => clones@.len() == fds@.len() && forall|i: int|
                0 <= i < clones@.len() ==> #[trigger] call_ensures(
                    f,
                    (&fds@[i],),
                    Some(clones@[i]),
                ),
            Err(e) => e == HandleError::InvalidMesaHandle && exists|i: int|
                0 <= i < fds@.len() && #[trigger] call_ensures(f, (&fds@[i],), None),
        },
{
    let mut clones: Vec<OwnedDescriptor> = Vec::new();
    let mut i: usize = 0;
    while i < fds.len()
        invariant
            i <= fds@.len(),
            clones@.len() == i,
            forall|fd: &OwnedDescriptor| call_requires(f, (fd,)),
            forall|j: int|
                0 <= j < i ==> #[trigger] call_ensures(f, (&fds@[j],), Some(clones@[j])),
        decreases fds.len() - i,
    {
        let ghost before = clones@;
        let clone: Option<OwnedDescriptor> = f(&fds[i]);
        match add_clone(clones, clone) {
            Ok(more) => {
                clones = more;
            },
            Err(e) => {
                assert(call_ensures(f, (&fds@[i as int],), None));
                return Err(e);
            },
        }
        assert forall|j: int| 0 <= j < i + 1 implies #[trigger] call_ensures(
            f,
            (&fds@[j],),
            Some(clones@[j]),
        ) by {
            if j < i {
                assert(call_ensures(f, (&fds@[j],), Some(before[j])));
            }
        }
        i += 1;
    }
    Ok(clones)
}

/// The descriptors with one more clone; a clone that could not be made ends it.
pub fn add_clone(fds: Vec<OwnedDescriptor>, clone: Option<OwnedDescriptor>) -> (r: Result<
    Vec<OwnedDescriptor>,
    HandleError,
>)
    ensures
        match clone {
            Some(fd) => r matches Ok(more) && more@ == fds@.push(fd),
            None => r == Err::<Vec<OwnedDescriptor>, HandleError>(HandleError::InvalidMesaHandle),
        },
{
    match clone {
        Some(fd) => {
            let mut more: Vec<OwnedDescriptor> = fds;
            more.push(fd);
            Ok(more)
        },
        None => Err(HandleError::InvalidMesaHandle),
    }
}

/// A handle of graphics memory of either kind.
pub enum RutabagaHandle {
    MesaHandle(MesaHandle),
    AhbInfo(AhbInfo),
}

impl From<MesaHandle> for RutabagaHandle {
    fn from(value: MesaHandle) -> (handle: RutabagaHandle) {
        RutabagaHandle::MesaHandle(value)
    }
}

impl vstd::std_specs::convert::FromSpecImpl<MesaHandle> for RutabagaHandle {
    open spec fn obeys_from_spec() -> bool {
        true
    }

    open spec fn from_spec(value: MesaHandle) -> RutabagaHandle {
        RutabagaHandle::MesaHandle(value)
    }
}

impl From<AhbInfo> for RutabagaHandle {
    fn from(value: AhbInfo) -> (handle: RutabagaHandle) {
        RutabagaHandle::AhbInfo(value)
    }
}

impl vstd::std_specs::convert::FromSpecImpl<AhbInfo> for RutabagaHandle {
    open spec fn obeys_from_spec() -> bool {
        true
    }

    open spec fn from_spec(value: AhbInfo) -> RutabagaHandle {
        RutabagaHandle::AhbInfo(value)
    }
}

impl TryFrom<RutabagaHandle> for MesaHandle {
    type Error = HandleError;

    fn try_from(handle: RutabagaHandle) -> (r: Result<MesaHandle, HandleError>) {
        match handle {
            RutabagaHandle::MesaHandle(h) => Ok(h),
            RutabagaHandle::AhbInfo(_) => Err(HandleError::InvalidMesaHandle),
        }
    }
}

impl vstd::std_specs::convert::TryFromSpecImpl<RutabagaHandle> for MesaHandle {
    open spec fn obeys_try_from_spec() -> bool {
        true
    }

    open spec fn try_from_spec(handle: RutabagaHandle) -> Result<MesaHandle, HandleError> {
        match handle {
            RutabagaHandle::MesaHandle(h) => Ok(h),
            RutabagaHandle::AhbInfo(_) => Err(HandleError::InvalidMesaHandle),
        }
    }
}

impl TryFrom<RutabagaHandle> for AhbInfo {
    type Error = HandleError;

    fn try_from(handle: RutabagaHandle) -> (r: Result<AhbInfo, HandleError>) {
        match handle {
            RutabagaHandle::AhbInfo(h) => Ok(h),
            RutabagaHandle::MesaHandle(_) => Err(HandleError::InvalidMesaHandle),
        }
    }
}

impl vstd::std_specs::convert::TryFromSpecImpl<RutabagaHandle> for AhbInfo {
    open spec fn obeys_try_from_spec() -> bool {
        true
    }

    open spec fn try_from_spec(handle: RutabagaHandle) -> Result<AhbInfo, HandleError> {
        match handle {
            RutabagaHandle::AhbInfo(h) => Ok(h),
            RutabagaHandle::MesaHandle(_) => Err(HandleError::InvalidMesaHandle),
        }
    }
}

/// A handle is taken back as what it was made from, and as nothing else.
pub proof fn law_handle_round_trip(mesa: MesaHandle, info: AhbInfo)
    ensures
        <MesaHandle as vstd::std_specs::convert::TryFromSpec<RutabagaHandle>>::try_from_spec(
            <RutabagaHandle as vstd::std_specs::convert::FromSpec<MesaHandle>>::from_spec(mesa),
        ) == Ok::<MesaHandle, HandleError>(mesa),
        <AhbInfo as vstd::std_specs::convert::TryFromSpec<RutabagaHandle>>::try_from_spec(
            <RutabagaHandle as vstd::std_specs::convert::FromSpec<AhbInfo>>::from_spec(info),
        ) == Ok::<AhbInfo, HandleError>(info),
        <AhbInfo as vstd::std_specs::convert::TryFromSpec<RutabagaHandle>>::try_from_spec(
            <RutabagaHandle as vstd::std_specs::convert::FromSpec<MesaHandle>>::from_spec(mesa),
        ) == Err::<AhbInfo, HandleError>(HandleError::InvalidMesaHandle),
        <MesaHandle as vstd::std_specs::convert::TryFromSpec<RutabagaHandle>>::try_from_spec(
            <RutabagaHandle as vstd::std_specs::convert::FromSpec<AhbInfo>>::from_spec(info),
        ) == Err::<MesaHandle, HandleError>(HandleError::InvalidMesaHandle),
{
}

impl RutabagaHandle {
    /// Another handle of the same memory and type, with descriptors of its own.
    /// Which file those stand for is not stated.
    pub fn try_clone(&self) -> (r: Result<RutabagaHandle, HandleError>)
        ensures
            match *self {
                RutabagaHandle::MesaHandle(from) => match r {
                    Ok(handle) => handle matches RutabagaHandle::MesaHandle(clone)
                        && clone.handle_type == from.handle_type && call_ensures(
                        mesa_handle_clone,
                        (&from,),
                        Some(clone),
                    ),
                    Err(e) => e == HandleError::InvalidMesaHandle && call_ensures(
                        mesa_handle_clone,
                        (&from,),
                        None,
                    ),
                },
                RutabagaHandle::AhbInfo(from) => match r {
                    Ok(handle) => handle matches RutabagaHandle::AhbInfo(info)
                        && info.is_clone_of(from),
                    Err(e) => e == HandleError::InvalidMesaHandle && from.clone_failed(),
                },
            },
    {
        match self {
            RutabagaHandle::MesaHandle(handle) => Self::cloned_by(handle, mesa_handle_clone),
            RutabagaHandle::AhbInfo(info) => match info.try_clone() {
                Ok(info) => Ok(RutabagaHandle::AhbInfo(info)),
                Err(e) => Err(e),
            },
        }
    }

    fn cloned_by<F: Fn(&MesaHandle) -> Option<MesaHandle>>(handle: &MesaHandle, f: F) -> (r: Result<
        RutabagaHandle,
        HandleError,
    >)
        requires
            call_requires(f, (handle,)),
        ensures
            match r {
                Ok(h) => h matches RutabagaHandle::MesaHandle(clone) && call_ensures(
                    f,
                    (handle,),
                    Some(clone),
                ),
                Err(e) => e == HandleError::InvalidMesaHandle && call_ensures(f, (handle,), None),
            },
    {
        Self::cloned(f(handle))
    }

    /// The clone of a handle of the first kind, if it could be made.
    pub fn cloned(clone: Option<MesaHandle>) -> (r: Result<RutabagaHandle, HandleError>)
        ensures
            r == (match clone {
                Some(handle) => Ok::<RutabagaHandle, HandleError>(
                    RutabagaHandle::MesaHandle(handle),
                ),
                None => Err(HandleError::InvalidMesaHandle),
            }),
    {
        match clone {
            Some(handle) => Ok(RutabagaHandle::MesaHandle(handle)),
            None => Err(HandleError::InvalidMesaHandle),
        }
    }

    /// The handle of the first kind, if it is one.
    pub fn as_mesa_handle(&self) -> (handle: Option<&MesaHandle>)
        ensures
            match self {
                RutabagaHandle::MesaHandle(h) => handle == Some(h),
                RutabagaHandle::AhbInfo(_) => handle is None,
            },
    {
        match self {
            RutabagaHandle::MesaHandle(h) => Some(h),
            RutabagaHandle::AhbInfo(_) => None,
        }
    }
}

/// A clone of a buffer has as many descriptors as the buffer and the same layout, and so
/// does a clone of that; a buffer without descriptors can always be cloned.
pub proof fn law_clones_keep_the_layout(info: AhbInfo, clone: AhbInfo, again: AhbInfo)
    requires
        clone.is_clone_of(info),
        again.is_clone_of(clone),
    ensures
        again.fds@.len() == info.fds@.len(),
        again.metadata@ == info.metadata@,
        info.fds@.len() == 0 ==> !info.clone_failed(),
{
}

} // verus!
