//! The context menu of a commit.

use vstd::prelude::*;
use vstd::string::*;

use crate::text::concat2;

verus! {

/// Where the documentation tells about custom commands.
pub const CUSTOM_GIT_COMMANDS_DOCS_SLUG: &'static str = "tasks#custom-git-commands";

/// The commit for which the menu is shown.
#[derive(Clone, Debug)]
pub struct CommitContextMenuData {
    pub sha: String,
    /// The id of the commit as it is displayed in short.
    pub sha_short: String,
    pub tag_names: Vec<String>,
}

/// Where the menu is shown.
#[derive(Clone, Copy, Debug, PartialEq, Eq, Structural)]
pub enum CommitContextMenuSource {
    GitGraph,
    GitPanel,
}

/// The ref on which the menu is shown.
#[derive(Clone, Debug)]
pub enum CommitContextMenuRef {
    Branch(String),
    Tag(String),
}

impl CommitContextMenuRef {
    /// The name of the ref.
    pub open spec fn spec_name(&self) -> Seq<char> {
        match self {
            CommitContextMenuRef::Branch(name) => name@,
            CommitContextMenuRef::Tag(name) => name@,
        }
    }

    /// The name of the ref.
    pub fn name(&self) -> (r: &str)
        ensures
            r@ == self.spec_name(),
    {
        match self {
            CommitContextMenuRef::Branch(name) => name.as_str(),
            CommitContextMenuRef::Tag(name) => name.as_str(),
        }
    }
}

/// An action of the editor, whose key binding an entry shows.
#[derive(Clone, Copy, Debug, PartialEq, Eq, Structural)]
pub enum MenuBinding {
    OpenCommitView,
    CopyCommitSha,
    CopyCommitTag,
}

/// What choosing an entry does.
#[derive(Debug)]
pub enum MenuCommand {
    /// Show what a branch changed.
    ViewBranchChanges { branch: String },
    /// Show what the commit changed.
    ViewDiff { sha: String },
    /// Copy a text to the clipboard.
    Copy(String),
    /// Show the commit in the graph.
    ShowInGraph { sha: String },
    /// Run the custom command of the index.
    RunTask(usize),
    /// Open the documentation of custom commands.
    LearnMore,
    /// Nothing: the entry is disabled.
    Disabled,
}

/// An item of the menu.
#[derive(Debug)]
pub enum MenuItem {
    Header(String),
    Separator,
    Entry { label: String, binding: Option<MenuBinding>, command: MenuCommand },
    /// A menu in which each entry copies its own label.
    CopyMenu { label: String, entries: Vec<String> },
}

/// What choosing an entry does.
pub enum CommandView {
    ViewBranchChanges(Seq<char>),
    ViewDiff(Seq<char>),
    Copy(Seq<char>),
    ShowInGraph(Seq<char>),
    RunTask(int),
    LearnMore,
    Disabled,
}

/// What an item of the menu is.
pub enum ItemView {
    Header(Seq<char>),
    Separator,
    Entry(Seq<char>, Option<MenuBinding>, CommandView),
    CopyMenu(Seq<char>, Seq<Seq<char>>),
}

impl MenuCommand {
    /// What choosing the entry does.
    pub open spec fn view(&self) -> CommandView {
        match self {
            MenuCommand::ViewBranchChanges { branch } => CommandView::ViewBranchChanges(branch@),
            MenuCommand::ViewDiff { sha } => CommandView::ViewDiff(sha@),
            MenuCommand::Copy(text) => CommandView::Copy(text@),
            MenuCommand::ShowInGraph { sha } => CommandView::ShowInGraph(sha@),
            MenuCommand::RunTask(i) => CommandView::RunTask(*i as int),
            MenuCommand::LearnMore => CommandView::LearnMore,
            MenuCommand::Disabled => CommandView::Disabled,
        }
    }
}

impl MenuItem {
    /// What the item is.
    pub open spec fn view(&self) -> ItemView {
        match self {
            MenuItem::Header(text) => ItemView::Header(text@),
            MenuItem::Separator => ItemView::Separator,
            MenuItem::Entry { label, binding, command } => ItemView::Entry(
                label@,
                *binding,
                command.view(),
            ),
            MenuItem::CopyMenu { label, entries } => ItemView::CopyMenu(label@, texts(entries@)),
        }
    }
}

/// What texts hold.
pub open spec fn texts(strings: Seq<String>) -> Seq<Seq<char>> {
    strings.map_values(|s: String| s@)
}

/// What the items of a menu are.
pub open spec fn menu_view(items: Seq<MenuItem>) -> Seq<ItemView> {
    items.map_values(|i: MenuItem| i.view())
}

/// What heads the menu: the ref, or else the commit.
pub open spec fn menu_header(
    commit: CommitContextMenuData,
    reference: Option<CommitContextMenuRef>,
) -> Seq<char> {
    match reference {
        Some(reference) => "Ref "@ + reference.spec_name(),
        None => "Commit "@ + commit.sha_short@,
    }
}

/// The entry that shows changes: those of a branch where the menu is shown on one.
pub open spec fn changes_item(
    commit: CommitContextMenuData,
    reference: Option<CommitContextMenuRef>,
) -> ItemView {
    match reference {
        Some(CommitContextMenuRef::Branch(branch)) => ItemView::Entry(
            "View Branch Changes"@,
            None,
            CommandView::ViewBranchChanges(branch@),
        ),
        _ => ItemView::Entry(
            "View Diff"@,
            Some(MenuBinding::OpenCommitView),
            CommandView::ViewDiff(commit.sha@),
        ),
    }
}

/// The item that copies a name: that of the ref, or else a tag of the commit.
pub open spec fn copy_name_item(
    commit: CommitContextMenuData,
    reference: Option<CommitContextMenuRef>,
) -> ItemView {
    let tags = texts(commit.tag_names@);
    match reference {
        Some(reference) => ItemView::Entry(
            "Copy Ref Name"@,
            None,
            CommandView::Copy(reference.spec_name()),
        ),
        None => if tags.len() == 0 {
            ItemView::Entry(
                "Copy Tag"@,
                Some(MenuBinding::CopyCommitTag),
                CommandView::Disabled,
            )
        } else if tags.len() == 1 {
            ItemView::Entry(
                "Copy Tag: "@ + tags[0],
                Some(MenuBinding::CopyCommitTag),
                CommandView::Copy(tags[0]),
            )
        } else {
            ItemView::CopyMenu("Copy Tag"@, tags)
        },
    }
}

/// The entries of the custom commands; where there are none, one that tells about them.
pub open spec fn task_items(labels: Seq<String>) -> Seq<ItemView> {
    if labels.len() == 0 {
        seq![ItemView::Entry("Learn More"@, None, CommandView::LearnMore)]
    } else {
        Seq::new(
            labels.len(),
            |i: int| ItemView::Entry(labels[i]@, None, CommandView::RunTask(i)),
        )
    }
}

/// The items of the menu of a commit.
pub open spec fn commit_menu(
    commit: CommitContextMenuData,
    source: CommitContextMenuSource,
    reference: Option<CommitContextMenuRef>,
    task_labels: Seq<String>,
) -> Seq<ItemView> {
    let about_commit = seq![
        ItemView::Header(menu_header(commit, reference)),
        changes_item(commit, reference),
        ItemView::Entry(
            "Copy SHA"@,
            Some(MenuBinding::CopyCommitSha),
            CommandView::Copy(commit.sha@),
        ),
        copy_name_item(commit, reference),
    ];
    let in_graph = match source {
        CommitContextMenuSource::GitPanel => seq![
            ItemView::Entry("Show in Git Graph"@, None, CommandView::ShowInGraph(commit.sha@)),
        ],
        CommitContextMenuSource::GitGraph => Seq::empty(),
    };
    about_commit + in_graph + seq![ItemView::Separator, ItemView::Header("Custom Commands"@)]
        + task_items(task_labels)
}

/// An entry of a menu.
fn entry(label: &str, binding: Option<MenuBinding>, command: MenuCommand) -> (r: MenuItem)
    ensures
        r.view() == ItemView::Entry(label@, binding, command.view()),
{
    MenuItem::Entry { label: label.to_string(), binding, command }
}

/// The item that copies a name.
fn copy_name(commit: &CommitContextMenuData, reference: &Option<CommitContextMenuRef>) -> (r: MenuItem)
    ensures
        r.view() == copy_name_item(*commit, *reference),
{
    if let Some(reference) = reference {
        return entry("Copy Ref Name", None, MenuCommand::Copy(reference.name().to_string()));
    }
    let tags = &commit.tag_names;
    if tags.len() == 0 {
        entry("Copy Tag", Some(MenuBinding::CopyCommitTag), MenuCommand::Disabled)
    } else if tags.len() == 1 {
        let tag = tags[0].as_str();
        entry(
            concat2("Copy Tag: ", tag).as_str(),
            Some(MenuBinding::CopyCommitTag),
            MenuCommand::Copy(tag.to_string()),
        )
    } else {
        let mut entries: Vec<String> = Vec::new();
        let mut i: usize = 0;
        while i < tags.len()
            invariant
                i <= tags.len(),
                entries@.len() == i,
                forall|k: int| 0 <= k < i ==> (#[trigger] entries@[k])@ == tags@[k]@,
            decreases tags.len() - i,
        {
            entries.push(tags[i].as_str().to_string());
            i = i + 1;
        }
        assert(texts(entries@) =~= texts(tags@));
        MenuItem::CopyMenu { label: "Copy Tag".to_string(), entries }
    }
}

/// Appends an item.
fn add_item(items: &mut Vec<MenuItem>, item: MenuItem)
    ensures
        menu_view(final(items)@) == menu_view(old(items)@).push(item.view()),
{
    items.push(item);
    assert(menu_view(items@) =~= menu_view(old(items)@).push(item.view()));
}

/// Builds the menu of a commit, given the labels of the custom commands.
pub fn commit_context_menu(
    commit: &CommitContextMenuData,
    source: CommitContextMenuSource,
    reference: &Option<CommitContextMenuRef>,
    task_labels: &Vec<String>,
) -> (r: Vec<MenuItem>)
    ensures
        menu_view(r@) == commit_menu(*commit, source, *reference, task_labels@),
{
    let mut items: Vec<MenuItem> = Vec::new();
    let header = match reference {
        Some(reference) => concat2("Ref ", reference.name()),
        None => concat2("Commit ", commit.sha_short.as_str()),
    };
    add_item(&mut items, MenuItem::Header(header));
    let changes = match reference {
        Some(CommitContextMenuRef::Branch(branch)) => entry(
            "View Branch Changes",
            None,
            MenuCommand::ViewBranchChanges { branch: branch.as_str().to_string() },
        ),
        _ => entry(
            "View Diff",
            Some(MenuBinding::OpenCommitView),
            MenuCommand::ViewDiff { sha: commit.sha.as_str().to_string() },
        ),
    };
    add_item(&mut items, changes);
    add_item(
        &mut items,
        entry(
            "Copy SHA",
            Some(MenuBinding::CopyCommitSha),
            MenuCommand::Copy(commit.sha.as_str().to_string()),
        ),
    );
    add_item(&mut items, copy_name(commit, reference));
    if source == CommitContextMenuSource::GitPanel {
        add_item(
            &mut items,
            entry(
                "Show in Git Graph",
                None,
                MenuCommand::ShowInGraph { sha: commit.sha.as_str().to_string() },
            ),
        );
    }
    add_item(&mut items, MenuItem::Separator);
    add_item(&mut items, MenuItem::Header("Custom Commands".to_string()));
    let ghost before = menu_view(items@);
    if task_labels.len() == 0 {
        add_item(&mut items, entry("Learn More", None, MenuCommand::LearnMore));
    } else {
        let mut i: usize = 0;
        assert(before + task_items(task_labels@).take(0) =~= before);
        while i < task_labels.len()
            invariant
                i <= task_labels.len(),
                task_labels@.len() > 0,
                menu_view(items@) == before + task_items(task_labels@).take(i as int),
            decreases task_labels.len() - i,
        {
            add_item(&mut items, entry(task_labels[i].as_str(), None, MenuCommand::RunTask(i)));
            assert(task_items(task_labels@).take(i + 1) =~= task_items(task_labels@).take(
                i as int,
            ).push(task_items(task_labels@)[i as int]));
            i = i + 1;
        }
        assert(task_items(task_labels@).take(task_labels@.len() as int) =~= task_items(
            task_labels@,
        ));
    }
    assert(menu_view(items@) =~= commit_menu(*commit, source, *reference, task_labels@));
    items
}

/// The commit whose changes are shown when the diff of `sha` is asked for: none without a
/// repository.
pub fn commit_to_view(sha: &str, has_repository: bool) -> (r: Option<String>)
    ensures
        if has_repository {
            r matches Some(shown) && shown@ == sha@
        } else {
            r is None
        },
{
    if has_repository {
        Some(sha.to_string())
    } else {
        None
    }
}

/// What becomes known while the changes of a branch are being opened.
pub enum BranchChangesEvent {
    /// The entry was chosen; `has_repository` tells whether there is a repository.
    Chosen { has_repository: bool },
    /// The repository was asked for its default branch.
    DefaultBranch(Result<Option<String>, String>),
    /// The changes were opened, or could not be.
    Opened(Result<(), String>),
}

/// What is to be done next to open the changes of a branch.
#[derive(Debug)]
pub enum BranchChangesAction {
    Nothing,
    AskDefaultBranch,
    /// Open the changes of the branch against the base.
    Open { base_ref: String, branch_ref: String, head_sha: String },
    /// Tell the user of an error.
    Notify(String),
}

/// Opens the changes of a branch, step by step.
pub fn open_branch_changes(head_sha: &str, branch_ref: &str, event: BranchChangesEvent) -> (action:
    BranchChangesAction)
    ensures
        match event {
            BranchChangesEvent::Chosen { has_repository } => if has_repository {
                action is AskDefaultBranch
            } else {
                action is Nothing
            },
            BranchChangesEvent::DefaultBranch(Ok(Some(base))) => {
                &&& action matches BranchChangesAction::Open { base_ref, branch_ref: b, head_sha: h }
                &&& base_ref == base
                &&& b@ == branch_ref@
                &&& h@ == head_sha@
            },
            BranchChangesEvent::DefaultBranch(Ok(None)) => {
                &&& action matches BranchChangesAction::Notify(message)
                &&& message@ == "Could not determine the default branch"@
            },
            BranchChangesEvent::DefaultBranch(Err(error)) => action matches BranchChangesAction::Notify(
                message,
            ) && message == error,
            BranchChangesEvent::Opened(Ok(_)) => action is Nothing,
            BranchChangesEvent::Opened(Err(error)) => action matches BranchChangesAction::Notify(
                message,
            ) && message == error,
        },
{
    match event {
        BranchChangesEvent::Chosen { has_repository } => if has_repository {
            BranchChangesAction::AskDefaultBranch
        } else {
            BranchChangesAction::Nothing
        },
        BranchChangesEvent::DefaultBranch(Ok(Some(base_ref))) => BranchChangesAction::Open {
            base_ref,
            branch_ref: branch_ref.to_string(),
            head_sha: head_sha.to_string(),
        },
        BranchChangesEvent::DefaultBranch(Ok(None)) => BranchChangesAction::Notify(
            "Could not determine the default branch".to_string(),
        ),
        BranchChangesEvent::DefaultBranch(Err(error)) => BranchChangesAction::Notify(error),
        BranchChangesEvent::Opened(Ok(_)) => BranchChangesAction::Nothing,
        BranchChangesEvent::Opened(Err(error)) => BranchChangesAction::Notify(error),
    }
}

/// A variable that a custom command can use.
#[derive(Clone, Copy, Debug, PartialEq, Eq, Structural)]
pub enum VariableName {
    GitSha,
    GitShaShort,
    GitRepositoryPath,
    GitRepositoryName,
    GitRef,
}

/// A variable with its value.
#[derive(Clone, Debug)]
pub struct TaskVariable {
    pub name: VariableName,
    pub value: String,
}

/// What a custom command is run with.
#[derive(Clone, Debug)]
pub struct TaskContext {
    /// The directory in which it is run, byte for byte as the system names it.
    pub cwd: Vec<u8>,
    pub variables: Vec<TaskVariable>,
}

/// A repository on the disk.
#[derive(Clone, Debug)]
pub struct RepositoryLocation {
    /// The path, byte for byte as the system names it.
    pub path: Vec<u8>,
    /// The path as text, with a replacement character for what is no valid text.
    pub path_text: String,
    /// The last part of the path, where it has one that can be read.
    pub name: Option<String>,
}

/// The value that a custom command finds for a variable.
pub open spec fn variable_value(
    name: VariableName,
    repository: RepositoryLocation,
    commit: CommitContextMenuData,
    ref_name: Option<&str>,
) -> Option<Seq<char>> {
    match name {
        VariableName::GitSha => Some(commit.sha@),
        VariableName::GitShaShort => Some(commit.sha_short@),
        VariableName::GitRepositoryPath => Some(repository.path_text@),
        VariableName::GitRepositoryName => match repository.name {
            Some(name) => Some(name@),
            None => None,
        },
        VariableName::GitRef => match ref_name {
            Some(name) => Some(name@),
            None => None,
        },
    }
}

/// The variables hold for every name the value that it has, once, and none for a name without one.
pub open spec fn holds_values(
    variables: Seq<TaskVariable>,
    values: spec_fn(VariableName) -> Option<Seq<char>>,
) -> bool {
    &&& forall|i: int|
        0 <= i < variables.len() ==> values((#[trigger] variables[i]).name) == Some(
            variables[i].value@,
        )
    &&& forall|name: VariableName|
        #[trigger] values(name) is Some ==> exists|i: int|
            0 <= i < variables.len() && (#[trigger] variables[i]).name == name
    &&& forall|i: int, j: int|
        0 <= i < j < variables.len() ==> (#[trigger] variables[i]).name != (
        #[trigger] variables[j]).name
}

/// A variable with its value.
fn variable(name: VariableName, value: &str) -> (r: TaskVariable)
    ensures
        r.name == name,
        r.value@ == value@,
{
    TaskVariable { name, value: value.to_string() }
}

/// A copy of bytes.
fn copy_bytes(bytes: &Vec<u8>) -> (r: Vec<u8>)
    ensures
        r@ == bytes@,
{
    let mut out: Vec<u8> = Vec::new();
    let mut i: usize = 0;
    while i < bytes.len()
        invariant
            i <= bytes.len(),
            out@ == bytes@.take(i as int),
        decreases bytes.len() - i,
    {
        out.push(bytes[i]);
        i = i + 1;
    }
    out
}

/// What custom commands for a commit are run with: nothing where there is no repository.
pub fn git_task_context(
    repository: &Option<RepositoryLocation>,
    commit: &CommitContextMenuData,
    ref_name: Option<&str>,
) -> (r: Option<TaskContext>)
    ensures
        match *repository {
            None => r is None,
            Some(repository) => {
                &&& r matches Some(context)
                &&& context.cwd@ == repository.path@
                &&& holds_values(
                    context.variables@,
                    |name: VariableName| variable_value(name, repository, *commit, ref_name),
                )
            },
        },
{
    match repository {
        None => None,
        Some(repository) => {
            let mut variables: Vec<TaskVariable> = Vec::new();
            variables.push(variable(VariableName::GitSha, commit.sha.as_str()));
            variables.push(variable(VariableName::GitShaShort, commit.sha_short.as_str()));
            variables.push(variable(VariableName::GitRepositoryPath, repository.path_text.as_str()));
            if let Some(name) = &repository.name {
                variables.push(variable(VariableName::GitRepositoryName, name.as_str()));
            }
            if let Some(name) = ref_name {
                variables.push(variable(VariableName::GitRef, name));
            }
            proof {
                let v = variables@;
                let values = |name: VariableName|
                    variable_value(name, *repository, *commit, ref_name);
                assert(v[0].name == VariableName::GitSha);
                assert(v[1].name == VariableName::GitShaShort);
                assert(v[2].name == VariableName::GitRepositoryPath);
                assert(repository.name is Some ==> v[3].name == VariableName::GitRepositoryName);
                assert(ref_name is Some ==> v[v.len() - 1].name == VariableName::GitRef);
                assert forall|name: VariableName| #[trigger] values(name) is Some implies exists|
                    i: int,
                | 0 <= i < v.len() && (#[trigger] v[i]).name == name by {
                    match name {
                        VariableName::GitSha => assert(v[0].name == name),
                        VariableName::GitShaShort => assert(v[1].name == name),
                        VariableName::GitRepositoryPath => assert(v[2].name == name),
                        VariableName::GitRepositoryName => assert(v[3].name == name),
                        VariableName::GitRef => assert(v[v.len() - 1].name == name),
                    }
                }
                assert(holds_values(v, values));
            }
            Some(TaskContext { cwd: copy_bytes(&repository.path), variables })
        },
    }
}

/// Where the custom commands of a commit come from.
#[derive(Debug)]
pub enum TaskLookup {
    /// There are none.
    Nowhere,
    /// The inventory of tasks, which resolves those that are tagged as git commands.
    Inventory(TaskContext),
}

/// Decides where custom commands come from: it takes a repository, the workspace and an inventory of
/// tasks.
pub fn git_context_menu_tasks(
    task_context: Option<TaskContext>,
    has_workspace: bool,
    has_inventory: bool,
) -> (r: TaskLookup)
    ensures
        match task_context {
            Some(context) => if has_workspace && has_inventory {
                r == TaskLookup::Inventory(context)
            } else {
                r is Nowhere
            },
            None => r is Nowhere,
        },
{
    match task_context {
        Some(context) => if has_workspace && has_inventory {
            TaskLookup::Inventory(context)
        } else {
            TaskLookup::Nowhere
        },
        None => TaskLookup::Nowhere,
    }
}

/// However the menu is shown, it can copy the id of the commit, and it ends with the custom
/// commands: one entry for each, in order, that runs it.
pub proof fn menus_copy_and_run(
    commit: CommitContextMenuData,
    source: CommitContextMenuSource,
    reference: Option<CommitContextMenuRef>,
    task_labels: Seq<String>,
)
    ensures
        ({
            let menu = commit_menu(commit, source, reference, task_labels);
            &&& menu[2] == ItemView::Entry(
                "Copy SHA"@,
                Some(MenuBinding::CopyCommitSha),
                CommandView::Copy(commit.sha@),
            )
            &&& menu.len() > task_labels.len()
            &&& forall|i: int|
                0 <= i < task_labels.len() ==> #[trigger] menu[menu.len() - task_labels.len() + i]
                    == ItemView::Entry(task_labels[i]@, None, CommandView::RunTask(i))
        }),
{
    let menu = commit_menu(commit, source, reference, task_labels);
    let tasks = task_items(task_labels);
    let head = menu.take(menu.len() - tasks.len());
    assert(menu =~= head + tasks);
    assert forall|i: int| 0 <= i < task_labels.len() implies #[trigger] menu[menu.len()
        - task_labels.len() + i] == ItemView::Entry(
        task_labels[i]@,
        None,
        CommandView::RunTask(i),
    ) by {
        assert(menu[menu.len() - task_labels.len() + i] == tasks[i]);
    }
}

} // verus!
