//! At most one running agent per user session.

use vstd::prelude::*;

verus! {

#[verifier::external_type_specification]
#[verifier::external_body]
pub struct ExSingleInstance(single_instance::SingleInstance);

#[verifier::external_type_specification]
#[verifier::external_body]
pub struct ExSingleInstanceError(single_instance::error::SingleInstanceError);

/// The name under which the running agent registers itself.
pub const INSTANCE_NAME: &'static str = "docsort_single_instance";

/// Why the single-instance check could not be made.
#[derive(Debug)]
pub enum InstanceError {
    /// The operating-system object behind the check could not be created.
    Create(single_instance::error::SingleInstanceError),
}

/// Calls `single_instance::SingleInstance::new(name)`, which claims the name
/// for this process (on Linux by binding an abstract Unix socket of that
/// name). Whether it succeeds depends on the operating system, so nothing is
/// claimed of the result. It is only ever called with the agent's name.
#[verifier::external_body]
fn claim_instance(name: &str) -> (res: Result<
    single_instance::SingleInstance,
    single_instance::error::SingleInstanceError,
>)
    requires
        name@ == INSTANCE_NAME@,
{
    single_instance::SingleInstance::new(name)
}

/// Whether a claim holds the agent's name: what `SingleInstance::is_single`
/// returns for it. The claim records at its creation whether it got the name
/// (on Linux whether it holds the bound socket, on Windows the mutex handle,
/// on macOS the lock), and `is_single` reads that record; so the answer is a
/// function of the claim alone.
pub uninterp spec fn spec_instance_is_single(instance: single_instance::SingleInstance) -> bool;

/// Calls `SingleInstance::is_single`: whether the claim got the name, that is,
/// no other process held it. The contract claims that the result is the named
/// answer for this claim.
#[verifier::external_body]
fn instance_is_single(instance: &single_instance::SingleInstance) -> (res: bool)
    ensures
        res == spec_instance_is_single(*instance),
{
    instance.is_single()
}

/// Keep the instance when it is the only one; give it up otherwise.
pub fn keep_if_single(instance: single_instance::SingleInstance, single: bool) -> (res: Option<
    single_instance::SingleInstance,
>)
    ensures
        single ==> res == Some(instance),
        !single ==> res is None,
{
    if single {
        Some(instance)
    } else {
        None
    }
}

/// The check's outcome from the result of the claim and, when the claim was
/// made, whether it is the only one.
pub fn instance_outcome(
    claimed: Result<single_instance::SingleInstance, single_instance::error::SingleInstanceError>,
    single: bool,
) -> (res: Result<Option<single_instance::SingleInstance>, InstanceError>)
    ensures
        (match claimed {
            Ok(instance) => if single {
                res == Ok::<_, InstanceError>(Some(instance))
            } else {
                res == Ok::<_, InstanceError>(None::<single_instance::SingleInstance>)
            },
            Err(e) => res == Err::<Option<single_instance::SingleInstance>, _>(
                InstanceError::Create(e),
            ),
        }),
{
    match claimed {
        Ok(instance) => Ok(keep_if_single(instance, single)),
        Err(e) => Err(InstanceError::Create(e)),
    }
}

/// Claim the agent's name. `Ok(Some(_))` holds the claim for as long as it
/// lives; `Ok(None)` means another agent runs already; `Err` means the check
/// could not be made. Which of these comes back depends on the operating
/// system and the other processes; a claim that is handed out holds the name.
pub fn check_single_instance() -> (res: Result<Option<single_instance::SingleInstance>, InstanceError>)
    ensures
        res matches Ok(Some(i)) ==> spec_instance_is_single(i),
{
    let claimed = claim_instance(INSTANCE_NAME);
    let single = match &claimed {
        Ok(instance) => instance_is_single(instance),
        Err(_) => false,
    };
    instance_outcome(claimed, single)
}

} // verus!
