//! The install command handed to the package manager.
//!
//! With dependant workspaces `a`, `b` and package identifier `pkg`, the
//! command line is `npm install -w a -w b pkg`, one `-w` flag per
//! workspace, in selection order.  With no dependant workspaces there is
//! nothing to run, and the caller is told so instead of being handed a
//! command.

use vstd::prelude::*;
use vstd::string::StringExecFns;

verus! {

/// One ` -w name` flag per workspace name, in order.
pub open spec fn spec_install_flags(names: Seq<Seq<char>>) -> Seq<char>
    decreases names.len(),
{
    if names.len() == 0 {
        Seq::empty()
    } else {
        spec_install_flags(names.drop_last()) + " -w "@ + names.last()
    }
}

/// The full command line: `npm install`, the workspace flags, a space, and
/// the package identifier as the user gave it.
pub open spec fn spec_install_command(names: Seq<Seq<char>>, package: Seq<char>) -> Seq<char> {
    "npm install"@ + spec_install_flags(names) + " "@ + package
}

/// Builds the install command line for the given workspace names and
/// package identifier.
pub fn build_install_command(names: &Vec<String>, package: &str) -> (r: String)
    ensures
        r@ == spec_install_command(names.deep_view(), package@),
{
    let mut cmd = String::from_str("npm install");
    let mut i: usize = 0;
    while i < names.len()
        invariant
            i <= names@.len(),
            cmd@ =~= "npm install"@ + spec_install_flags(names.deep_view().subrange(0, i as int)),
        decreases names.len() - i,
    {
        cmd.append(" -w ");
        cmd.append(names[i].as_str());
        proof {
            let sub = names.deep_view().subrange(0, i as int + 1);
            assert(sub.drop_last() =~= names.deep_view().subrange(0, i as int));
            assert(sub.last() == names.deep_view()[i as int]);
            assert(cmd@ =~= "npm install"@ + spec_install_flags(sub));
        }
        i += 1;
    }
    proof {
        assert(names.deep_view().subrange(0, names@.len() as int) =~= names.deep_view());
    }
    cmd.append(" ");
    cmd.append(package);
    cmd
}

/// What the dispatcher is to do for a selection of dependant workspaces.
#[derive(Debug, PartialEq, Eq)]
pub enum InstallPlan {
    /// No workspace depends on the package: report it, run nothing.
    NoDependants,
    /// Run this command line through the shell.
    Run(String),
}

/// Decides the dispatch: with no dependant workspaces nothing is run, and
/// otherwise the install command scoped to exactly the given workspaces.
pub fn plan_install(names: &Vec<String>, package: &str) -> (r: InstallPlan)
    ensures
        r is NoDependants <==> names@.len() == 0,
        r matches InstallPlan::Run(cmd) ==> cmd@ == spec_install_command(
            names.deep_view(),
            package@,
        ),
{
    if names.len() == 0 {
        InstallPlan::NoDependants
    } else {
        InstallPlan::Run(build_install_command(names, package))
    }
}

} // verus!
