//! Laws on the menu of a commit.

use vstd::prelude::*;

use crate::commit_menu::{
    commit_context_menu, commit_menu, commit_to_view, git_context_menu_tasks, git_task_context,
    menu_view, open_branch_changes, task_items, BranchChangesAction, BranchChangesEvent,
    CommitContextMenuData, CommitContextMenuRef, CommitContextMenuSource, MenuBinding, MenuCommand,
    MenuItem, RepositoryLocation, TaskContext, TaskLookup, VariableName,
};

verus! {

/// The item copies the text under the label.
pub open spec fn copies(
    item: MenuItem,
    label: Seq<char>,
    binding: Option<MenuBinding>,
    text: Seq<char>,
) -> bool {
    item matches MenuItem::Entry { label: l, binding: b, command: MenuCommand::Copy(copied) } && l@
        == label && b == binding && copied@ == text
}

/// The menu of a commit, item by item: a heading, what changed, the id to copy, a name to copy, in
/// the panel a way to the graph, and the custom commands.
pub proof fn menus_are_of_the_commit(
    commit: &CommitContextMenuData,
    source: CommitContextMenuSource,
    reference: &Option<CommitContextMenuRef>,
    labels: &Vec<String>,
    menu: Vec<MenuItem>,
)
    requires
        call_ensures(commit_context_menu, (commit, source, reference, labels), menu),
    ensures
        menu@.len() == (if source == CommitContextMenuSource::GitPanel {
            7int
        } else {
            6int
        }) + (if labels@.len() > 0 {
            labels@.len() as int
        } else {
            1int
        }),
        menu@[0] matches MenuItem::Header(text) && text@ == match *reference {
            Some(CommitContextMenuRef::Branch(name)) => "Ref "@ + name@,
            Some(CommitContextMenuRef::Tag(name)) => "Ref "@ + name@,
            None => "Commit "@ + commit.sha_short@,
        },
        *reference matches Some(CommitContextMenuRef::Branch(branch)) ==> (
        menu@[1] matches MenuItem::Entry {
            label,
            binding: None,
            command: MenuCommand::ViewBranchChanges { branch: b },
        } && label@ == "View Branch Changes"@ && b@ == branch@),
        !(*reference matches Some(CommitContextMenuRef::Branch(_))) ==> (
        menu@[1] matches MenuItem::Entry {
            label,
            binding: Some(MenuBinding::OpenCommitView),
            command: MenuCommand::ViewDiff { sha },
        } && label@ == "View Diff"@ && sha@ == commit.sha@),
        copies(menu@[2], "Copy SHA"@, Some(MenuBinding::CopyCommitSha), commit.sha@),
        *reference matches Some(CommitContextMenuRef::Branch(name)) ==> copies(
            menu@[3],
            "Copy Ref Name"@,
            None,
            name@,
        ),
        *reference matches Some(CommitContextMenuRef::Tag(name)) ==> copies(
            menu@[3],
            "Copy Ref Name"@,
            None,
            name@,
        ),
        *reference is None && commit.tag_names@.len() == 0 ==> (menu@[3] matches MenuItem::Entry {
            label,
            binding: Some(MenuBinding::CopyCommitTag),
            command: MenuCommand::Disabled,
        } && label@ == "Copy Tag"@),
        *reference is None && commit.tag_names@.len() == 1 ==> copies(
            menu@[3],
            "Copy Tag: "@ + commit.tag_names@[0]@,
            Some(MenuBinding::CopyCommitTag),
            commit.tag_names@[0]@,
        ),
        *reference is None && commit.tag_names@.len() > 1 ==> (menu@[3] matches MenuItem::CopyMenu {
            label,
            entries,
        } && label@ == "Copy Tag"@ && entries@.len() == commit.tag_names@.len() && (forall|i: int|
            0 <= i < entries@.len() ==> (#[trigger] entries@[i])@ == commit.tag_names@[i]@)),
        source == CommitContextMenuSource::GitPanel ==> (menu@[4] matches MenuItem::Entry {
            label,
            binding: None,
            command: MenuCommand::ShowInGraph { sha },
        } && label@ == "Show in Git Graph"@ && sha@ == commit.sha@),
        ({
            let tasks = if source == CommitContextMenuSource::GitPanel {
                7int
            } else {
                6int
            };
            &&& menu@[tasks - 2] is Separator
            &&& menu@[tasks - 1] matches MenuItem::Header(text) && text@ == "Custom Commands"@
        }),
        labels@.len() == 0 ==> (menu@.last() matches MenuItem::Entry {
            label,
            binding: None,
            command: MenuCommand::LearnMore,
        } && label@ == "Learn More"@),
        forall|i: int|
            0 <= i < labels@.len() ==> (#[trigger] menu@[menu@.len() - labels@.len()
                + i] matches MenuItem::Entry {
                label,
                binding: None,
                command: MenuCommand::RunTask(task),
            } && label@ == labels@[i]@ && task == i),
{
    let views = commit_menu(*commit, source, *reference, labels@);
    let tasks = task_items(labels@);
    assert(menu_view(menu@) == views);
    assert(menu@.len() == views.len());
    assert forall|i: int| 0 <= i < menu@.len() implies #[trigger] menu@[i].view() == views[i] by {
        assert(menu_view(menu@)[i] == menu@[i].view());
    }
    let start = views.len() - tasks.len();
    assert(views.skip(start) =~= tasks);
    assert(menu@[0].view() == views[0]);
    assert(menu@[1].view() == views[1]);
    assert(menu@[2].view() == views[2]);
    assert(menu@[3].view() == views[3]);
    assert(menu@[4].view() == views[4]);
    assert(menu@[start - 2].view() == views[start - 2]);
    assert(menu@[start - 1].view() == views[start - 1]);
    assert(menu@[menu@.len() - 1].view() == views[views.len() - 1]);
    if *reference is None && commit.tag_names@.len() > 1 {
        let entries = menu@[3]->entries;
        assert(crate::commit_menu::texts(entries@) == crate::commit_menu::texts(commit.tag_names@));
        assert forall|i: int| 0 <= i < entries@.len() implies (#[trigger] entries@[i])@
            == commit.tag_names@[i]@ by {
            assert(crate::commit_menu::texts(entries@)[i] == entries@[i]@);
            assert(crate::commit_menu::texts(commit.tag_names@)[i] == commit.tag_names@[i]@);
        }
        assert(crate::commit_menu::texts(entries@).len() == entries@.len());
    }
    assert forall|i: int| 0 <= i < labels@.len() implies (#[trigger] menu@[menu@.len() - labels@.len()
        + i] matches MenuItem::Entry {
        label,
        binding: None,
        command: MenuCommand::RunTask(task),
    } && label@ == labels@[i]@ && task == i) by {
        let at = menu@.len() - labels@.len() + i;
        assert(menu@[at].view() == views[at]);
        assert(views[at] == tasks[i]);
    }
}

/// The value of a variable for custom commands.
pub open spec fn value_for(
    name: VariableName,
    repository: RepositoryLocation,
    commit: CommitContextMenuData,
    ref_name: Option<Seq<char>>,
) -> Option<Seq<char>> {
    if name == VariableName::GitSha {
        Some(commit.sha@)
    } else if name == VariableName::GitShaShort {
        Some(commit.sha_short@)
    } else if name == VariableName::GitRepositoryPath {
        Some(repository.path_text@)
    } else if name == VariableName::GitRepositoryName {
        if repository.name is Some {
            Some((repository.name->0)@)
        } else {
            None
        }
    } else {
        ref_name
    }
}

/// Custom commands run in the repository and find every variable that has a value, once and with
/// that value, and no other. Without a repository there is nothing to run them with.
pub proof fn commands_find_their_variables(
    repository: &Option<RepositoryLocation>,
    commit: &CommitContextMenuData,
    ref_name: Option<&str>,
    name: VariableName,
    r: Option<TaskContext>,
)
    requires
        call_ensures(git_task_context, (repository, commit, ref_name), r),
    ensures
        r is Some <==> *repository is Some,
        *repository matches Some(repository) ==> {
            let variables = (r->0).variables@;
            let expected = value_for(
                name,
                repository,
                *commit,
                match ref_name {
                    Some(n) => Some(n@),
                    None => None,
                },
            );
            &&& (r->0).cwd@ == repository.path@
            &&& (expected is None ==> (forall|i: int|
                0 <= i < variables.len() ==> (#[trigger] variables[i]).name != name))
            &&& (expected is Some ==> (exists|i: int|
                0 <= i < variables.len() && (#[trigger] variables[i]).name == name))
            &&& (forall|i: int|
                0 <= i < variables.len() && (#[trigger] variables[i]).name == name ==> expected == Some(
                    variables[i].value@,
                ))
            &&& (forall|i: int, j: int|
                0 <= i < j < variables.len() ==> (#[trigger] variables[i]).name != (
                #[trigger] variables[j]).name)
        },
{
    if let Some(repository) = *repository {
        let values = |name: VariableName|
            crate::commit_menu::variable_value(name, repository, *commit, ref_name);
        assert(values(name) == value_for(
            name,
            repository,
            *commit,
            match ref_name {
                Some(n) => Some(n@),
                None => None,
            },
        ));
        assert(crate::commit_menu::holds_values((r->0).variables@, values));
    }
}

/// Custom commands are resolved with their context where there is a workspace with an inventory.
pub proof fn commands_come_from_the_inventory(
    context: Option<TaskContext>,
    has_workspace: bool,
    has_inventory: bool,
    r: TaskLookup,
)
    requires
        call_ensures(git_context_menu_tasks, (context, has_workspace, has_inventory), r),
    ensures
        r is Inventory <==> context is Some && has_workspace && has_inventory,
        r matches TaskLookup::Inventory(c) ==> context == Some(c),
{
}

/// A diff is shown of the commit that was asked for, in a repository only.
pub proof fn diffs_are_of_the_commit(sha: &str, has_repository: bool, r: Option<String>)
    requires
        call_ensures(commit_to_view, (sha, has_repository), r),
    ensures
        r is Some <==> has_repository,
        r matches Some(shown) ==> shown@ == sha@,
{
}

/// The changes of a branch are opened from the default branch up to the commit; where there is no
/// default branch, or something goes wrong, the user is told.
pub proof fn branch_changes_are_from_the_default(
    sha: &str,
    branch: &str,
    event: BranchChangesEvent,
    action: BranchChangesAction,
)
    requires
        call_ensures(open_branch_changes, (sha, branch, event), action),
    ensures
        event matches BranchChangesEvent::Chosen { has_repository } ==> (if has_repository {
            action is AskDefaultBranch
        } else {
            action is Nothing
        }),
        event matches BranchChangesEvent::DefaultBranch(Ok(Some(base))) ==> (
        action matches BranchChangesAction::Open { base_ref, branch_ref, head_sha } && base_ref@ == base@
            && branch_ref@ == branch@ && head_sha@ == sha@),
        event matches BranchChangesEvent::DefaultBranch(Ok(None)) ==> (
        action matches BranchChangesAction::Notify(m) && m@ == "Could not determine the default branch"@),
        event matches BranchChangesEvent::DefaultBranch(Err(error)) ==> (
        action matches BranchChangesAction::Notify(m) && m@ == error@),
        event matches BranchChangesEvent::Opened(Err(error)) ==> (
        action matches BranchChangesAction::Notify(m) && m@ == error@),
        event matches BranchChangesEvent::Opened(Ok(_)) ==> action is Nothing,
{
}

} // verus!
