//! The strategy table: for each environment and operation, the mechanisms to
//! try, in their order.

use crate::environment::Environment;
use crate::machine::{Mechanism, Operation};
use vstd::prelude::*;

verus! {

/// The mechanisms for an operation in an environment, first choice first.
///
/// `OpenBrowser` stands for a request with a browser named by the user; a
/// request to open in a browser with none named is served as `Open`.
pub open spec fn strategy_for(env: Environment, operation: Operation) -> Seq<Mechanism> {
    match operation {
        Operation::Open => match env {
            Environment::NativeWindows => seq![
                Mechanism::ShellExecute,
                Mechanism::ShellExecuteNormalized,
            ],
            Environment::MacOs => seq![Mechanism::MacOpen],
            Environment::LinuxWsl => seq![Mechanism::WslView, Mechanism::XdgOpen],
            Environment::LinuxDesktop => seq![Mechanism::XdgOpen, Mechanism::XdgOpenScript],
            Environment::ContainerizedLinux => seq![Mechanism::XdgOpen, Mechanism::XdgOpenScript],
        },
        Operation::OpenBrowser => seq![Mechanism::Browser],
        Operation::Reveal => match env {
            Environment::NativeWindows => seq![Mechanism::ComReveal],
            Environment::MacOs => seq![Mechanism::MacReveal],
            Environment::LinuxWsl => seq![Mechanism::Explorer],
            Environment::LinuxDesktop => seq![
                Mechanism::FileManager1,
                Mechanism::OpenUriPortal,
                Mechanism::OpenParent,
            ],
            Environment::ContainerizedLinux => seq![
                Mechanism::FileManager1,
                Mechanism::OpenUriPortal,
                Mechanism::OpenParent,
            ],
        },
    }
}

/// Every environment has at least one mechanism for every operation, and
/// never more than three.
pub proof fn lemma_strategy_total(env: Environment, operation: Operation)
    ensures
        1 <= strategy_for(env, operation).len() <= 3,
{
}

/// The mechanisms for an operation in an environment, first choice first.
pub fn strategy(env: Environment, operation: Operation) -> (r: Vec<Mechanism>)
    ensures
        r@ == strategy_for(env, operation),
{
    let mut list: Vec<Mechanism> = Vec::new();
    match operation {
        Operation::Open => match env {
            Environment::NativeWindows => {
                list.push(Mechanism::ShellExecute);
                list.push(Mechanism::ShellExecuteNormalized);
            },
            Environment::MacOs => {
                list.push(Mechanism::MacOpen);
            },
            Environment::LinuxWsl => {
                list.push(Mechanism::WslView);
                list.push(Mechanism::XdgOpen);
            },
            Environment::LinuxDesktop | Environment::ContainerizedLinux => {
                list.push(Mechanism::XdgOpen);
                list.push(Mechanism::XdgOpenScript);
            },
        },
        Operation::OpenBrowser => {
            list.push(Mechanism::Browser);
        },
        Operation::Reveal => match env {
            Environment::NativeWindows => {
                list.push(Mechanism::ComReveal);
            },
            Environment::MacOs => {
                list.push(Mechanism::MacReveal);
            },
            Environment::LinuxWsl => {
                list.push(Mechanism::Explorer);
            },
            Environment::LinuxDesktop | Environment::ContainerizedLinux => {
                list.push(Mechanism::FileManager1);
                list.push(Mechanism::OpenUriPortal);
                list.push(Mechanism::OpenParent);
            },
        },
    }
    assert(list@ =~= strategy_for(env, operation));
    list
}

} // verus!
