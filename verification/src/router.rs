//! Output routing.
//!
//! While the supervisor serves one command, everything the operation prints
//! must reach the client that issued it. Routing duplicates the current
//! standard-output descriptor, points both standard output and standard error
//! at the connection's descriptor, and hands back the duplicate so the caller
//! can undo the redirection afterwards — unconditionally, whether the routed
//! operation succeeded or failed.
//!
//! The restoration law is proved over a model of the descriptor table: a map
//! from each open descriptor to the identity of the open file description it
//! denotes. Duplicating a descriptor inserts a fresh key mapped to the same
//! description; redirecting makes keys 1 and 2 denote the target's
//! description.

use vstd::prelude::*;

verus! {

/// Effect of duplicating the current standard output onto a fresh
/// descriptor, on the descriptor-table model.
pub open spec fn dup_stdout_spec(t: Map<int, int>, fresh: int) -> Map<int, int> {
    t.insert(fresh, t[1])
}

/// Effect of pointing standard output and standard error at `fd`'s open file
/// description, on the descriptor-table model.
pub open spec fn redirect_spec(t: Map<int, int>, fd: int) -> Map<int, int> {
    t.insert(1, t[fd]).insert(2, t[fd])
}

/// Effect of one routing call: save the current standard output on a fresh
/// descriptor, then point both output descriptors at `fd`. Yields the new
/// table and the saved descriptor.
pub open spec fn route_spec(t: Map<int, int>, fd: int, fresh: int) -> (Map<int, int>, int) {
    (redirect_spec(dup_stdout_spec(t, fresh), fd), fresh)
}

/// Law: routing output to a connection and then routing it back to the
/// descriptor saved by the first call restores standard output and standard
/// error to the output target they had before — whatever the routed
/// operation wrote in between — and leaves every descriptor other than the
/// output pair and the two saved duplicates denoting what it denoted before.
pub proof fn lemma_route_output_restores(t: Map<int, int>, conn: int, fresh1: int, fresh2: int)
    requires
        t.dom().contains(1),
        t.dom().contains(2),
        t.dom().contains(conn),
        !t.dom().contains(fresh1),
        !t.dom().contains(fresh2),
        fresh1 != fresh2,
    ensures
        ({
            let (t1, saved) = route_spec(t, conn, fresh1);
            let (t2, _) = route_spec(t1, saved, fresh2);
            &&& t2[1] == t[1]
            &&& t2[2] == t[1]
            &&& forall|k: int|
                t.dom().contains(k) && k != 1 && k != 2 && k != fresh1 && k != fresh2 ==> t2[k]
                    == t[k]
        }),
{
}

/// Relies on `nix::unistd::dup`: duplicates descriptor 1 (standard output),
/// returning a fresh descriptor denoting the same open file description;
/// non-negative on success. Failure is mapped to -1, as the raw call reports
/// it.
#[verifier::external_body]
fn sys_dup_stdout() -> (r: i32)
    ensures
        r >= -1,
{
    match nix::unistd::dup(1) {
        Ok(fd) => fd,
        Err(_) => -1,
    }
}

/// Relies on `nix::unistd::dup2`: makes descriptor 1 (standard output)
/// denote the same open file description as `fd`. A failure leaves the
/// descriptor as it was; routing proceeds regardless.
#[verifier::external_body]
fn sys_dup2_stdout(fd: i32) {
    let _ = nix::unistd::dup2(fd, 1);
}

/// Relies on `nix::unistd::dup2`: makes descriptor 2 (standard error) denote
/// the same open file description as `fd`.
#[verifier::external_body]
fn sys_dup2_stderr(fd: i32) {
    let _ = nix::unistd::dup2(fd, 2);
}

/// Route standard output and standard error to `fd`, so that everything the
/// process prints reaches the peer behind `fd`. Returns the saved duplicate
/// of the previous standard output (or -1 if saving it failed): passing it
/// back to this function undoes the redirection, as
/// `lemma_route_output_restores` states on the descriptor-table model.
pub fn route_output_to(fd: i32) -> (old_fd: i32)
    ensures
        old_fd >= -1,
{
    let old_fd = sys_dup_stdout();
    sys_dup2_stdout(fd);
    sys_dup2_stderr(fd);
    old_fd
}

/// Run an operation with its output routed to the connection behind
/// `connection_fd`, restoring the previous output target afterwards on every
/// path, whether the operation succeeded or failed, and handing the
/// operation's result back unchanged.
pub fn run_with_routing<R, E, F: FnOnce() -> Result<R, E>>(connection_fd: i32, operation: F) -> (r:
    Result<R, E>)
    requires
        call_requires(operation, ()),
    ensures
        call_ensures(operation, (), r),
{
    let saved_fd = route_output_to(connection_fd);
    let r = operation();
    route_output_to(saved_fd);
    r
}

} // verus!
