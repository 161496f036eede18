//! File dialogs: what is asked for, and who is told what came of it.

use vstd::prelude::*;

verus! {

/// A kind of files that a dialog offers.
#[derive(Debug)]
pub struct FileSpec {
    /// A human readable name, describing this filetype.
    pub name: String,
    /// The file extensions used by this file type, without the dot.
    pub extensions: Vec<String>,
}

/// Options for file dialogs.
#[derive(Debug)]
pub struct FileDialogOptions {
    pub title: Option<String>,
    pub button_text: Option<String>,
    pub default_name: Option<String>,
    pub starting_directory: Option<String>,
    pub allowed_types: Option<Vec<FileSpec>>,
    pub default_type: Option<FileSpec>,
    pub select_directories: bool,
    pub multi_selection: bool,
}

/// Type of file dialog.
#[derive(Clone, Copy, Debug, PartialEq, Eq, Structural)]
pub enum FileDialogType {
    /// File open dialog.
    Open,
    /// File save dialog.
    Save,
}

/// A filter of a dialog: the files whose names match one of the patterns.
#[derive(Debug)]
pub struct FileFilter {
    pub name: String,
    pub globs: Vec<String>,
}

/// What is asked of the desktop. A dialog for saving neither chooses several files nor directories.
#[derive(Debug)]
pub struct DialogRequest {
    pub kind: FileDialogType,
    pub title: String,
    pub multiple: bool,
    pub directory: bool,
    pub accept_label: Option<String>,
    pub current_name: Option<String>,
    pub current_folder: Option<String>,
    pub filters: Vec<FileFilter>,
    pub current_filter: Option<FileFilter>,
}

/// Whom to tell what was chosen. Choices are named by their positions in the answer.
#[derive(Debug)]
pub enum Delivery {
    OpenFiles(Vec<usize>),
    OpenFile(Option<usize>),
    SaveAs(Option<usize>),
    /// Several files cannot be saved at once: nobody is told.
    CannotSaveMultiple,
}

/// The title of a dialog that was not given one.
pub open spec fn default_title(kind: FileDialogType, directories: bool) -> Seq<char> {
    match kind {
        FileDialogType::Open => if directories {
            "Open Folder"@
        } else {
            "Open File"@
        },
        FileDialogType::Save => "Save File"@,
    }
}

/// A pattern for the files with an extension.
pub open spec fn glob(extension: Seq<char>) -> Seq<char> {
    "*."@ + extension
}

/// Whether a filter stands for a kind of files.
pub open spec fn filters_for(filter: FileFilter, kind: FileSpec) -> bool {
    &&& filter.name@ == kind.name@
    &&& filter.globs@.len() == kind.extensions@.len()
    &&& forall|i: int|
        0 <= i < filter.globs@.len() ==> (#[trigger] filter.globs@[i])@ == glob(
            kind.extensions@[i]@,
        )
}

/// The filter for a kind of files.
pub fn file_filter(kind: &FileSpec) -> (filter: FileFilter)
    ensures
        filters_for(filter, *kind),
{
    let mut globs: Vec<String> = Vec::new();
    let mut i: usize = 0;
    while i < kind.extensions.len()
        invariant
            i <= kind.extensions@.len(),
            globs@.len() == i,
            forall|j: int|
                0 <= j < i ==> (#[trigger] globs@[j])@ == glob(kind.extensions@[j]@),
        decreases kind.extensions.len() - i,
    {
        let mut pattern = "*.".to_owned();
        pattern.append(kind.extensions[i].as_str());
        globs.push(pattern);
        i += 1;
    }
    FileFilter { name: kind.name.clone(), globs }
}

/// What a dialog asks of the desktop.
pub open spec fn asks_for(
    request: DialogRequest,
    options: FileDialogOptions,
    kind: FileDialogType,
) -> bool {
    let open = kind == FileDialogType::Open;
    &&& request.kind == kind
    &&& request.title@ == match options.title {
        Some(title) => title@,
        None => default_title(kind, options.select_directories),
    }
    &&& request.multiple == (open && options.multi_selection)
    &&& request.directory == (open && options.select_directories)
    &&& request.accept_label == options.button_text
    &&& request.current_name == if open {
        None
    } else {
        options.default_name
    }
    &&& request.current_folder == if open {
        None
    } else {
        options.starting_directory
    }
    &&& match options.allowed_types {
        None => request.filters@.len() == 0,
        Some(kinds) => {
            &&& request.filters@.len() == kinds@.len()
            &&& forall|i: int|
                0 <= i < kinds@.len() ==> filters_for(#[trigger] request.filters@[i], kinds@[i])
        },
    }
    &&& match (request.current_filter, options.default_type) {
        (None, None) => true,
        (Some(filter), Some(kind)) => filters_for(filter, kind),
        _ => false,
    }
}

/// Works out what to ask of the desktop.
pub fn dialog(options: FileDialogOptions, kind: FileDialogType) -> (request: DialogRequest)
    ensures
        asks_for(request, options, kind),
{
    let open = kind == FileDialogType::Open;
    let multiple = open && options.multi_selection;
    let directory = open && options.select_directories;
    let title = match options.title {
        Some(title) => title,
        None => match kind {
            FileDialogType::Open => if options.select_directories {
                "Open Folder".to_owned()
            } else {
                "Open File".to_owned()
            },
            FileDialogType::Save => "Save File".to_owned(),
        },
    };
    let mut filters: Vec<FileFilter> = Vec::new();
    if let Some(kinds) = &options.allowed_types {
        let mut i: usize = 0;
        while i < kinds.len()
            invariant
                i <= kinds@.len(),
                filters@.len() == i,
                forall|j: int| 0 <= j < i ==> filters_for(#[trigger] filters@[j], kinds@[j]),
            decreases kinds.len() - i,
        {
            filters.push(file_filter(&kinds[i]));
            i += 1;
        }
    }
    let current_filter = match &options.default_type {
        Some(kind) => Some(file_filter(kind)),
        None => None,
    };
    let (current_name, current_folder) = if open {
        (None, None)
    } else {
        (options.default_name, options.starting_directory)
    };
    DialogRequest {
        kind,
        title,
        multiple,
        directory,
        accept_label: options.button_text,
        current_name,
        current_folder,
        filters,
        current_filter,
    }
}

/// The positions at which `valid` holds, in order.
pub open spec fn valid_positions(valid: Seq<bool>) -> Seq<usize>
    decreases valid.len(),
{
    if valid.len() == 0 {
        Seq::empty()
    } else if valid.last() {
        valid_positions(valid.drop_last()).push((valid.len() - 1) as usize)
    } else {
        valid_positions(valid.drop_last())
    }
}

/// The first position at which `valid` holds.
pub open spec fn is_first_valid(valid: Seq<bool>, first: Option<usize>) -> bool {
    match first {
        Some(i) => i < valid.len() && valid[i as int] && forall|j: int|
            0 <= j < i ==> !#[trigger] valid[j],
        None => forall|j: int| 0 <= j < valid.len() ==> !#[trigger] valid[j],
    }
}

/// Whether what is told, and to whom, suits a dialog.
pub open spec fn tells(
    delivery: Delivery,
    kind: FileDialogType,
    multi_selection: bool,
    valid: Seq<bool>,
) -> bool {
    match delivery {
        Delivery::OpenFiles(files) => kind == FileDialogType::Open && multi_selection && files@
            == valid_positions(valid),
        Delivery::OpenFile(first) => kind == FileDialogType::Open && !multi_selection
            && is_first_valid(valid, first),
        Delivery::SaveAs(first) => kind == FileDialogType::Save && !multi_selection
            && is_first_valid(valid, first),
        Delivery::CannotSaveMultiple => kind == FileDialogType::Save && multi_selection,
    }
}

/// Decides whom to tell what was chosen. `valid` says of each choice whether it is a file at all;
/// the others are left out.
pub fn deliver(kind: FileDialogType, multi_selection: bool, valid: &Vec<bool>) -> (delivery: Delivery)
    ensures
        tells(delivery, kind, multi_selection, valid@),
{
    if multi_selection {
        match kind {
            FileDialogType::Open => Delivery::OpenFiles(all_valid(valid)),
            FileDialogType::Save => Delivery::CannotSaveMultiple,
        }
    } else {
        let first = first_valid(valid);
        match kind {
            FileDialogType::Open => Delivery::OpenFile(first),
            FileDialogType::Save => Delivery::SaveAs(first),
        }
    }
}

fn all_valid(valid: &Vec<bool>) -> (files: Vec<usize>)
    ensures
        files@ == valid_positions(valid@),
{
    let mut files: Vec<usize> = Vec::new();
    let mut i: usize = 0;
    while i < valid.len()
        invariant
            i <= valid@.len(),
            files@ == valid_positions(valid@.take(i as int)),
        decreases valid.len() - i,
    {
        proof {
            assert(valid@.take(i as int + 1).drop_last() =~= valid@.take(i as int));
        }
        if valid[i] {
            files.push(i);
        }
        i += 1;
    }
    assert(valid@.take(i as int) =~= valid@);
    files
}

fn first_valid(valid: &Vec<bool>) -> (first: Option<usize>)
    ensures
        is_first_valid(valid@, first),
{
    let mut i: usize = 0;
    while i < valid.len()
        invariant
            i <= valid@.len(),
            forall|j: int| 0 <= j < i ==> !#[trigger] valid@[j],
        decreases valid.len() - i,
    {
        if valid[i] {
            return Some(i);
        }
        i += 1;
    }
    None
}

/// The files that are handed over are those that are files, each of them once and in the order of
/// the answer.
pub proof fn law_every_file_is_delivered_once(valid: Seq<bool>)
    requires
        valid.len() <= usize::MAX,
    ensures
        forall|i: int|
            0 <= i < valid.len() ==> (valid_positions(valid).contains(i as usize) <==> #[trigger] valid[i]),
        forall|j: int, k: int|
            0 <= j < k < valid_positions(valid).len() ==> #[trigger] valid_positions(valid)[j]
                < #[trigger] valid_positions(valid)[k],
        forall|j: int|
            0 <= j < valid_positions(valid).len() ==> #[trigger] valid_positions(valid)[j]
                < valid.len(),
    decreases valid.len(),
{
    if valid.len() > 0 {
        let rest = valid.drop_last();
        let before = valid_positions(rest);
        let all = valid_positions(valid);
        law_every_file_is_delivered_once(rest);
        assert forall|i: int| 0 <= i < valid.len() implies (all.contains(i as usize)
            <==> #[trigger] valid[i]) by {
            if i < valid.len() - 1 {
                assert(rest[i] == valid[i]);
                if before.contains(i as usize) {
                    let j = choose|j: int| 0 <= j < before.len() && before[j] == i as usize;
                    assert(all[j] == i as usize);
                }
                if all.contains(i as usize) {
                    let j = choose|j: int| 0 <= j < all.len() && all[j] == i as usize;
                    assert(j < before.len());
                    assert(before[j] == i as usize);
                }
            } else {
                if valid.last() {
                    assert(all[all.len() - 1] == i as usize);
                } else if all.contains(i as usize) {
                    let j = choose|j: int| 0 <= j < all.len() && all[j] == i as usize;
                    assert(before[j] < rest.len());
                }
            }
        }
    }
}

/// What is told suits the dialog, whatever was chosen: a dialog for opening tells of files to open,
/// several of them if it was asked for several, and one for saving of one file to save.
pub proof fn law_deliveries_suit_their_dialogs(
    delivery: Delivery,
    kind: FileDialogType,
    multi_selection: bool,
    valid: Seq<bool>,
)
    requires
        tells(delivery, kind, multi_selection, valid),
        valid.len() <= usize::MAX,
    ensures
        (delivery is OpenFiles || delivery is OpenFile) == (kind is Open),
        (delivery is OpenFiles || delivery is CannotSaveMultiple) == multi_selection,
        delivery matches Delivery::OpenFiles(files) ==> forall|i: int|
            0 <= i < files@.len() ==> (#[trigger] files@[i]) < valid.len() && valid[files@[i] as int],
        delivery matches Delivery::OpenFile(Some(file)) ==> file < valid.len() && valid[file as int],
        delivery matches Delivery::SaveAs(Some(file)) ==> file < valid.len() && valid[file as int],
{
    law_every_file_is_delivered_once(valid);
    if let Delivery::OpenFiles(files) = delivery {
        assert forall|i: int| 0 <= i < files@.len() implies (#[trigger] files@[i]) < valid.len()
            && valid[files@[i] as int] by {
            assert(valid_positions(valid)[i] < valid.len());
            assert(valid_positions(valid).contains(files@[i]));
            assert(valid[files@[i] as int] == valid[files@[i] as int]);
        }
    }
}

/// A dialog for one file tells of the first of those that one for several tells of, and of none
/// only if there are none.
pub proof fn law_one_choice_is_the_first_of_several(valid: Seq<bool>, first: Option<usize>)
    requires
        valid.len() <= usize::MAX,
        is_first_valid(valid, first),
    ensures
        (first is None) == (valid_positions(valid).len() == 0),
        first matches Some(file) ==> valid_positions(valid)[0] == file,
{
    let all = valid_positions(valid);
    law_every_file_is_delivered_once(valid);
    if all.len() > 0 {
        let least = all[0];
        assert(all.contains(least));
        assert(valid[least as int]);
        if let Some(file) = first {
            assert(valid[file as int]);
            let k = choose|k: int| 0 <= k < all.len() && all[k] == file;
            if k > 0 {
                assert(all[0] < all[k]);
            }
        }
    } else if let Some(file) = first {
        assert(valid[file as int]);
        assert(all.contains(file));
    }
}

/// Whoever is asked sees the title that was given, or else one that says what the dialog is for.
pub proof fn law_titles_say_what_is_asked(
    request: DialogRequest,
    options: FileDialogOptions,
    kind: FileDialogType,
)
    requires
        asks_for(request, options, kind),
    ensures
        request.kind == kind,
        options.title matches Some(title) ==> request.title@ == title@,
        options.title is None ==> {
            &&& request.title@.len() > 5
            &&& request.title@.take(5) == match kind {
                FileDialogType::Open => seq!['O', 'p', 'e', 'n', ' '],
                FileDialogType::Save => seq!['S', 'a', 'v', 'e', ' '],
            }
            &&& request.title@.skip(5) == if request.directory {
                seq!['F', 'o', 'l', 'd', 'e', 'r']
            } else {
                seq!['F', 'i', 'l', 'e']
            }
        },
{
    reveal_strlit("Open Folder");
    reveal_strlit("Open File");
    reveal_strlit("Save File");
    if options.title is None {
        assert(request.title@.take(5) =~= match kind {
            FileDialogType::Open => seq!['O', 'p', 'e', 'n', ' '],
            FileDialogType::Save => seq!['S', 'a', 'v', 'e', ' '],
        });
        assert(request.title@.skip(5) =~= if request.directory {
            seq!['F', 'o', 'l', 'd', 'e', 'r']
        } else {
            seq!['F', 'i', 'l', 'e']
        });
    }
}

/// A dialog for saving chooses one file, and begins with the name and the folder that were given.
/// One for opening chooses what was asked for, and begins with neither.
pub proof fn law_saving_and_opening_differ(
    request: DialogRequest,
    options: FileDialogOptions,
    kind: FileDialogType,
)
    requires
        asks_for(request, options, kind),
    ensures
        request.accept_label == options.button_text,
        kind is Save ==> !request.multiple && !request.directory && request.current_name
            == options.default_name && request.current_folder == options.starting_directory,
        kind is Open ==> request.multiple == options.multi_selection && request.directory
            == options.select_directories && request.current_name is None
            && request.current_folder is None,
{
}

/// The desktop is told of the kinds of files that were allowed, each under its name, in order and
/// with a pattern for each of its extensions, and of the one to begin with.
pub proof fn law_kinds_of_files_are_passed_on(
    request: DialogRequest,
    options: FileDialogOptions,
    kind: FileDialogType,
    i: int,
    j: int,
)
    requires
        asks_for(request, options, kind),
        0 <= i < request.filters@.len(),
        0 <= j < request.filters@[i].globs@.len(),
    ensures
        options.allowed_types matches Some(kinds) && i < kinds@.len() == request.filters@.len()
            && request.filters@[i].name@ == kinds@[i].name@ && request.filters@[i].globs@.len()
            == kinds@[i].extensions@.len() && request.filters@[i].globs@[j]@.take(2) == seq!['*', '.']
            && request.filters@[i].globs@[j]@.skip(2) == kinds@[i].extensions@[j]@,
        (request.current_filter is Some) == (options.default_type is Some),
        options.default_type matches Some(chosen) ==> request.current_filter->0.name@ == chosen.name@,
{
    reveal_strlit("*.");
    if let Some(kinds) = options.allowed_types {
        assert(filters_for(request.filters@[i], kinds@[i]));
        let pattern = request.filters@[i].globs@[j]@;
        assert(pattern == glob(kinds@[i].extensions@[j]@));
        assert(pattern.take(2) =~= seq!['*', '.']);
        assert(pattern.skip(2) =~= kinds@[i].extensions@[j]@);
    }
}

} // verus!
