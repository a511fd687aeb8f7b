use vstd::prelude::*;

use sha2::Digest;

use crate::layout::{container_dir_spec, FileSystem};
use crate::text::digit_char;

verus! {

/// The SHA-256 digest of the bytes.
pub uninterp spec fn sha256_of(b: Seq<u8>) -> Seq<u8>;

/// The character of the hex digit `d` (for `d < 16`), in lower case.
pub open spec fn hex_char(d: nat) -> char {
    if d < 10 {
        digit_char(d)
    } else {
        ((d + 87) as u8) as char
    }
}

/// Two lower-case hex digits for each byte, high half first.
pub open spec fn hex_of(b: Seq<u8>) -> Seq<char> {
    Seq::new(
        2 * b.len(),
        |i: int|
            if i % 2 == 0 {
                hex_char((b[i / 2] / 16) as nat)
            } else {
                hex_char((b[i / 2] % 16) as nat)
            },
    )
}

/// The last `k` bytes of `t` in big-endian order.
pub open spec fn be_bytes(t: nat, k: nat) -> Seq<u8>
    decreases k,
{
    if k == 0 {
        Seq::empty()
    } else {
        be_bytes(t / 256, (k - 1) as nat).push((t % 256) as u8)
    }
}

/// The identity of a container created at `nanos` since the epoch.
pub open spec fn container_id_spec(nanos: nat) -> Seq<char> {
    hex_of(sha256_of(be_bytes(nanos, 16)))
}

/// Relies on sha2's `Sha256::digest`: the SHA-256 digest of the bytes, 32 bytes long.
#[verifier::external_body]
fn sha256(b: &Vec<u8>) -> (r: Vec<u8>)
    ensures
        r@ == sha256_of(b@),
        r@.len() == 32,
{
    sha2::Sha256::digest(b.as_slice()).to_vec()
}

/// Relies on `hex::encode`: two lower-case hex digits per byte, in order.
#[verifier::external_body]
fn hex_encode(b: &Vec<u8>) -> (r: String)
    ensures
        r@ == hex_of(b@),
{
    hex::encode(b)
}

/// Appends the last `k` bytes of `t`, most significant first.
fn push_be_bytes(t: u128, k: usize, out: &mut Vec<u8>)
    ensures
        final(out)@ == old(out)@ + be_bytes(t as nat, k as nat),
    decreases k,
{
    if k > 0 {
        push_be_bytes(t / 256, k - 1, out);
        out.push((t % 256) as u8);
        proof {
            assert(old(out)@ + be_bytes((t / 256) as nat, (k - 1) as nat) + seq![(t % 256) as u8]
                =~= old(out)@ + be_bytes(t as nat, k as nat));
        }
    } else {
        assert(old(out)@ + be_bytes(t as nat, k as nat) =~= old(out)@);
    }
}

/// The identity of a container created at `nanos`: the hex SHA-256 of the 16
/// big-endian bytes of the time.
pub fn container_id(nanos: u128) -> (r: String)
    ensures
        r@ == container_id_spec(nanos as nat),
        r@.len() == 64,
{
    let mut bytes: Vec<u8> = Vec::new();
    push_be_bytes(nanos, 16, &mut bytes);
    assert(bytes@ =~= be_bytes(nanos as nat, 16));
    let digest = sha256(&bytes);
    id_of_digest(&digest)
}

/// The identity written for a digest: its bytes in hex.
pub fn id_of_digest(digest: &Vec<u8>) -> (r: String)
    ensures
        r@ == hex_of(digest@),
{
    hex_encode(digest)
}

#[derive(PartialEq, Eq, Structural, Clone, Copy, Debug)]
pub enum ContainerState {
    Created,
    Running,
    Exited(i32),
    CleanedUp,
}

#[derive(PartialEq, Eq, Structural, Clone, Copy, Debug)]
pub enum ContainerError {
    /// The process has not been waited for.
    NotExited,
    /// The container was cleaned up already.
    AlreadyCleanedUp,
    /// The transition does not fit the current state.
    WrongState,
}

/// A container: its identity, its process, and the root filesystem it owns.
pub struct Container {
    pub id: String,
    pub pid: i32,
    pub file_system: FileSystem,
    pub state: ContainerState,
}

/// What tearing a container down removes: its cgroup, then its root filesystem.
pub struct CleanupPlan {
    pub cgroup: String,
    pub root: String,
}

impl Container {
    /// A container that has not started yet, with the root filesystem of its identity.
    pub fn new(id: String) -> (r: Container)
        ensures
            r.id@ == id@,
            r.state == ContainerState::Created,
            r.file_system.container_id@ == id@,
            r.file_system.path@ == container_dir_spec(id@),
    {
        let file_system = FileSystem::new(id.clone());
        Container { id, pid: 0, file_system, state: ContainerState::Created }
    }

    /// The name of the cgroup of this container.
    pub fn cgroup_name(&self) -> (r: String)
        ensures
            r@ == self.id@,
    {
        self.id.clone()
    }

    /// The isolated process `pid` was spawned.
    pub fn started(&mut self, pid: i32) -> (r: Result<(), ContainerError>)
        ensures
            old(self).state == ContainerState::Created <==> r is Ok,
            r is Ok ==> final(self).state == ContainerState::Running && final(self).pid == pid,
            r is Err ==> final(self).state == old(self).state && final(self).pid == old(self).pid,
            final(self).id == old(self).id,
            final(self).file_system == old(self).file_system,
    {
        if self.state == ContainerState::Created {
            self.pid = pid;
            self.state = ContainerState::Running;
            Ok(())
        } else {
            Err(ContainerError::WrongState)
        }
    }

    /// The process exited with `status`.
    pub fn exited(&mut self, status: i32) -> (r: Result<(), ContainerError>)
        ensures
            old(self).state == ContainerState::Running <==> r is Ok,
            r is Ok ==> final(self).state == ContainerState::Exited(status),
            r is Err ==> final(self).state == old(self).state,
            final(self).pid == old(self).pid,
            final(self).id == old(self).id,
            final(self).file_system == old(self).file_system,
    {
        if self.state == ContainerState::Running {
            self.state = ContainerState::Exited(status);
            Ok(())
        } else {
            Err(ContainerError::WrongState)
        }
    }
}

/// Tears a container down once its process has exited, whatever its status: gives the
/// cgroup and the root filesystem to remove, once.
pub fn cleanup(container: &mut Container) -> (r: Result<CleanupPlan, ContainerError>)
    ensures
        old(container).state is Exited <==> r is Ok,
        r matches Ok(p) ==> final(container).state == ContainerState::CleanedUp && p.cgroup@ == old(
            container,
        ).id@ && p.root@ == old(container).file_system.path@,
        old(container).state == ContainerState::CleanedUp ==> r == Err::<CleanupPlan, ContainerError>(
            ContainerError::AlreadyCleanedUp,
        ),
        (old(container).state == ContainerState::Created || old(container).state == ContainerState::Running)
            ==> r == Err::<CleanupPlan, ContainerError>(ContainerError::NotExited),
        r is Err ==> final(container).state == old(container).state,
        final(container).id == old(container).id,
        final(container).file_system == old(container).file_system,
{
    match container.state {
        ContainerState::Exited(_) => {
            container.state = ContainerState::CleanedUp;
            Ok(CleanupPlan { cgroup: container.cgroup_name(), root: container.file_system.path.clone() })
        },
        ContainerState::CleanedUp => Err(ContainerError::AlreadyCleanedUp),
        _ => Err(ContainerError::NotExited),
    }
}

/// Whether an image must be pulled before the run: a registry was named, and the
/// reference is neither an archive nor in the cache.
pub fn should_pull(registry_given: bool, is_archive: bool, cached: bool) -> (r: bool)
    ensures
        r == (registry_given && !is_archive && !cached),
{
    registry_given && !is_archive && !cached
}

} // verus!
