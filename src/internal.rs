//! The closed catalog of built-in actions ("internals") which verbs and
//! key bindings refer to by name, with the metadata of each action.

use vstd::prelude::*;
use crate::text::str_eq;

verus! {

/// One of the built-in actions. The set is closed: configuration refers to
/// them by name and a name outside this set is refused when it is loaded.
#[allow(non_camel_case_types)]
#[derive(Debug, Clone, Copy, PartialEq, Eq, Structural)]
pub enum Internal {
    apply_flags,
    back,
    default_layout,
    clear_output,
    clear_stage,
    close_panel_cancel,
    close_panel_ok,
    close_preview,
    close_staging_area,
    copy_line,
    copy_path,
    escape,
    filesystems,
    focus,
    focus_staging_area_no_open,
    help,
    input_clear,
    input_del_char_below,
    input_del_char_left,
    input_del_word_left,
    input_del_word_right,
    input_go_left,
    input_go_right,
    input_go_to_end,
    input_go_to_start,
    input_go_word_left,
    input_go_word_right,
    input_paste,
    input_selection_copy,
    input_selection_cut,
    line_down,
    line_down_no_cycle,
    line_up,
    line_up_no_cycle,
    mode_command,
    mode_input,
    move_panel_divider,
    next_dir,
    next_match,
    next_same_depth,
    no_sort,
    open_leave,
    open_preview,
    open_staging_area,
    open_stay,
    open_stay_filter,
    open_trash,
    page_down,
    page_up,
    panel_left,
    panel_left_no_open,
    panel_right,
    panel_right_no_open,
    parent,
    preview_binary,
    preview_image,
    preview_text,
    preview_tty,
    previous_dir,
    previous_match,
    previous_same_depth,
    print_path,
    print_relative_path,
    print_tree,
    quit,
    refresh,
    delete_trashed_file,
    restore_trashed_file,
    purge_trash,
    root_down,
    root_up,
    select,
    show,
    select_first,
    select_last,
    set_panel_width,
    set_syntax_theme,
    sort_by_count,
    sort_by_date,
    sort_by_size,
    sort_by_type,
    sort_by_type_dirs_first,
    sort_by_type_dirs_last,
    stage,
    stage_all_directories,
    stage_all_files,
    start_end_panel,
    toggle_counts,
    toggle_dates,
    toggle_device_id,
    toggle_files,
    toggle_git_file_info,
    toggle_git_ignore,
    toggle_git_status,
    toggle_hidden,
    toggle_ignore,
    toggle_perm,
    toggle_preview,
    toggle_root_fs,
    set_max_depth,
    unset_max_depth,
    toggle_second_tree,
    toggle_sizes,
    toggle_stage,
    toggle_staging_area,
    toggle_tree,
    toggle_trim_root,
    total_search,
    search_again,
    trash,
    unstage,
    up_tree,
    write_output,
}

/// Error raised while binding configuration to the catalog.
#[derive(Debug, Clone, PartialEq, Eq)]
pub enum ConfError {
    /// The name given is not the name of any built-in action.
    UnknownInternal { verb: String },
}

/// The action whose name is `s`, if there is one.
pub open spec fn spec_lookup(s: Seq<char>) -> Option<Internal> {
    if exists|i: Internal| i.spec_name() == s {
        Some(choose|i: Internal| i.spec_name() == s)
    } else {
        None
    }
}

impl Internal {
    /// The name by which configuration refers to the action.
    pub open spec fn spec_name(self) -> Seq<char> {
        match self {
            Internal::apply_flags => "apply_flags"@,
            Internal::back => "back"@,
            Internal::default_layout => "default_layout"@,
            Internal::clear_output => "clear_output"@,
            Internal::clear_stage => "clear_stage"@,
            Internal::close_panel_cancel => "close_panel_cancel"@,
            Internal::close_panel_ok => "close_panel_ok"@,
            Internal::close_preview => "close_preview"@,
            Internal::close_staging_area => "close_staging_area"@,
            Internal::copy_line => "copy_line"@,
            Internal::copy_path => "copy_path"@,
            Internal::escape => "escape"@,
            Internal::filesystems => "filesystems"@,
            Internal::focus => "focus"@,
            Internal::focus_staging_area_no_open => "focus_staging_area_no_open"@,
            Internal::help => "help"@,
            Internal::input_clear => "input_clear"@,
            Internal::input_del_char_below => "input_del_char_below"@,
            Internal::input_del_char_left => "input_del_char_left"@,
            Internal::input_del_word_left => "input_del_word_left"@,
            Internal::input_del_word_right => "input_del_word_right"@,
            Internal::input_go_left => "input_go_left"@,
            Internal::input_go_right => "input_go_right"@,
            Internal::input_go_to_end => "input_go_to_end"@,
            Internal::input_go_to_start => "input_go_to_start"@,
            Internal::input_go_word_left => "input_go_word_left"@,
            Internal::input_go_word_right => "input_go_word_right"@,
            Internal::input_paste => "input_paste"@,
            Internal::input_selection_copy => "input_selection_copy"@,
            Internal::input_selection_cut => "input_selection_cut"@,
            Internal::line_down => "line_down"@,
            Internal::line_down_no_cycle => "line_down_no_cycle"@,
            Internal::line_up => "line_up"@,
            Internal::line_up_no_cycle => "line_up_no_cycle"@,
            Internal::mode_command => "mode_command"@,
            Internal::mode_input => "mode_input"@,
            Internal::move_panel_divider => "move_panel_divider"@,
            Internal::next_dir => "next_dir"@,
            Internal::next_match => "next_match"@,
            Internal::next_same_depth => "next_same_depth"@,
            Internal::no_sort => "no_sort"@,
            Internal::open_leave => "open_leave"@,
            Internal::open_preview => "open_preview"@,
            Internal::open_staging_area => "open_staging_area"@,
            Internal::open_stay => "open_stay"@,
            Internal::open_stay_filter => "open_stay_filter"@,
            Internal::open_trash => "open_trash"@,
            Internal::page_down => "page_down"@,
            Internal::page_up => "page_up"@,
            Internal::panel_left => "panel_left"@,
            Internal::panel_left_no_open => "panel_left_no_open"@,
            Internal::panel_right => "panel_right"@,
            Internal::panel_right_no_open => "panel_right_no_open"@,
            Internal::parent => "parent"@,
            Internal::preview_binary => "preview_binary"@,
            Internal::preview_image => "preview_image"@,
            Internal::preview_text => "preview_text"@,
            Internal::preview_tty => "preview_tty"@,
            Internal::previous_dir => "previous_dir"@,
            Internal::previous_match => "previous_match"@,
            Internal::previous_same_depth => "previous_same_depth"@,
            Internal::print_path => "print_path"@,
            Internal::print_relative_path => "print_relative_path"@,
            Internal::print_tree => "print_tree"@,
            Internal::quit => "quit"@,
            Internal::refresh => "refresh"@,
            Internal::delete_trashed_file => "delete_trashed_file"@,
            Internal::restore_trashed_file => "restore_trashed_file"@,
            Internal::purge_trash => "purge_trash"@,
            Internal::root_down => "root_down"@,
            Internal::root_up => "root_up"@,
            Internal::select => "select"@,
            Internal::show => "show"@,
            Internal::select_first => "select_first"@,
            Internal::select_last => "select_last"@,
            Internal::set_panel_width => "set_panel_width"@,
            Internal::set_syntax_theme => "set_syntax_theme"@,
            Internal::sort_by_count => "sort_by_count"@,
            Internal::sort_by_date => "sort_by_date"@,
            Internal::sort_by_size => "sort_by_size"@,
            Internal::sort_by_type => "sort_by_type"@,
            Internal::sort_by_type_dirs_first => "sort_by_type_dirs_first"@,
            Internal::sort_by_type_dirs_last => "sort_by_type_dirs_last"@,
            Internal::stage => "stage"@,
            Internal::stage_all_directories => "stage_all_directories"@,
            Internal::stage_all_files => "stage_all_files"@,
            Internal::start_end_panel => "start_end_panel"@,
            Internal::toggle_counts => "toggle_counts"@,
            Internal::toggle_dates => "toggle_dates"@,
            Internal::toggle_device_id => "toggle_device_id"@,
            Internal::toggle_files => "toggle_files"@,
            Internal::toggle_git_file_info => "toggle_git_file_info"@,
            Internal::toggle_git_ignore => "toggle_git_ignore"@,
            Internal::toggle_git_status => "toggle_git_status"@,
            Internal::toggle_hidden => "toggle_hidden"@,
            Internal::toggle_ignore => "toggle_ignore"@,
            Internal::toggle_perm => "toggle_perm"@,
            Internal::toggle_preview => "toggle_preview"@,
            Internal::toggle_root_fs => "toggle_root_fs"@,
            Internal::set_max_depth => "set_max_depth"@,
            Internal::unset_max_depth => "unset_max_depth"@,
            Internal::toggle_second_tree => "toggle_second_tree"@,
            Internal::toggle_sizes => "toggle_sizes"@,
            Internal::toggle_stage => "toggle_stage"@,
            Internal::toggle_staging_area => "toggle_staging_area"@,
            Internal::toggle_tree => "toggle_tree"@,
            Internal::toggle_trim_root => "toggle_trim_root"@,
            Internal::total_search => "total_search"@,
            Internal::search_again => "search_again"@,
            Internal::trash => "trash"@,
            Internal::unstage => "unstage"@,
            Internal::up_tree => "up_tree"@,
            Internal::write_output => "write_output"@,
        }
    }

    /// The name of the action.
    pub fn name(self) -> (r: &'static str)
        ensures
            r@ == self.spec_name(),
    {
        match self {
            Internal::apply_flags => "apply_flags",
            Internal::back => "back",
            Internal::default_layout => "default_layout",
            Internal::clear_output => "clear_output",
            Internal::clear_stage => "clear_stage",
            Internal::close_panel_cancel => "close_panel_cancel",
            Internal::close_panel_ok => "close_panel_ok",
            Internal::close_preview => "close_preview",
            Internal::close_staging_area => "close_staging_area",
            Internal::copy_line => "copy_line",
            Internal::copy_path => "copy_path",
            Internal::escape => "escape",
            Internal::filesystems => "filesystems",
            Internal::focus => "focus",
            Internal::focus_staging_area_no_open => "focus_staging_area_no_open",
            Internal::help => "help",
            Internal::input_clear => "input_clear",
            Internal::input_del_char_below => "input_del_char_below",
            Internal::input_del_char_left => "input_del_char_left",
            Internal::input_del_word_left => "input_del_word_left",
            Internal::input_del_word_right => "input_del_word_right",
            Internal::input_go_left => "input_go_left",
            Internal::input_go_right => "input_go_right",
            Internal::input_go_to_end => "input_go_to_end",
            Internal::input_go_to_start => "input_go_to_start",
            Internal::input_go_word_left => "input_go_word_left",
            Internal::input_go_word_right => "input_go_word_right",
            Internal::input_paste => "input_paste",
            Internal::input_selection_copy => "input_selection_copy",
            Internal::input_selection_cut => "input_selection_cut",
            Internal::line_down => "line_down",
            Internal::line_down_no_cycle => "line_down_no_cycle",
            Internal::line_up => "line_up",
            Internal::line_up_no_cycle => "line_up_no_cycle",
            Internal::mode_command => "mode_command",
            Internal::mode_input => "mode_input",
            Internal::move_panel_divider => "move_panel_divider",
            Internal::next_dir => "next_dir",
            Internal::next_match => "next_match",
            Internal::next_same_depth => "next_same_depth",
            Internal::no_sort => "no_sort",
            Internal::open_leave => "open_leave",
            Internal::open_preview => "open_preview",
            Internal::open_staging_area => "open_staging_area",
            Internal::open_stay => "open_stay",
            Internal::open_stay_filter => "open_stay_filter",
            Internal::open_trash => "open_trash",
            Internal::page_down => "page_down",
            Internal::page_up => "page_up",
            Internal::panel_left => "panel_left",
            Internal::panel_left_no_open => "panel_left_no_open",
            Internal::panel_right => "panel_right",
            Internal::panel_right_no_open => "panel_right_no_open",
            Internal::parent => "parent",
            Internal::preview_binary => "preview_binary",
            Internal::preview_image => "preview_image",
            Internal::preview_text => "preview_text",
            Internal::preview_tty => "preview_tty",
            Internal::previous_dir => "previous_dir",
            Internal::previous_match => "previous_match",
            Internal::previous_same_depth => "previous_same_depth",
            Internal::print_path => "print_path",
            Internal::print_relative_path => "print_relative_path",
            Internal::print_tree => "print_tree",
            Internal::quit => "quit",
            Internal::refresh => "refresh",
            Internal::delete_trashed_file => "delete_trashed_file",
            Internal::restore_trashed_file => "restore_trashed_file",
            Internal::purge_trash => "purge_trash",
            Internal::root_down => "root_down",
            Internal::root_up => "root_up",
            Internal::select => "select",
            Internal::show => "show",
            Internal::select_first => "select_first",
            Internal::select_last => "select_last",
            Internal::set_panel_width => "set_panel_width",
            Internal::set_syntax_theme => "set_syntax_theme",
            Internal::sort_by_count => "sort_by_count",
            Internal::sort_by_date => "sort_by_date",
            Internal::sort_by_size => "sort_by_size",
            Internal::sort_by_type => "sort_by_type",
            Internal::sort_by_type_dirs_first => "sort_by_type_dirs_first",
            Internal::sort_by_type_dirs_last => "sort_by_type_dirs_last",
            Internal::stage => "stage",
            Internal::stage_all_directories => "stage_all_directories",
            Internal::stage_all_files => "stage_all_files",
            Internal::start_end_panel => "start_end_panel",
            Internal::toggle_counts => "toggle_counts",
            Internal::toggle_dates => "toggle_dates",
            Internal::toggle_device_id => "toggle_device_id",
            Internal::toggle_files => "toggle_files",
            Internal::toggle_git_file_info => "toggle_git_file_info",
            Internal::toggle_git_ignore => "toggle_git_ignore",
            Internal::toggle_git_status => "toggle_git_status",
            Internal::toggle_hidden => "toggle_hidden",
            Internal::toggle_ignore => "toggle_ignore",
            Internal::toggle_perm => "toggle_perm",
            Internal::toggle_preview => "toggle_preview",
            Internal::toggle_root_fs => "toggle_root_fs",
            Internal::set_max_depth => "set_max_depth",
            Internal::unset_max_depth => "unset_max_depth",
            Internal::toggle_second_tree => "toggle_second_tree",
            Internal::toggle_sizes => "toggle_sizes",
            Internal::toggle_stage => "toggle_stage",
            Internal::toggle_staging_area => "toggle_staging_area",
            Internal::toggle_tree => "toggle_tree",
            Internal::toggle_trim_root => "toggle_trim_root",
            Internal::total_search => "total_search",
            Internal::search_again => "search_again",
            Internal::trash => "trash",
            Internal::unstage => "unstage",
            Internal::up_tree => "up_tree",
            Internal::write_output => "write_output",
        }
    }

    /// The human description of the action, shown in help.
    pub open spec fn spec_description(self) -> Seq<char> {
        match self {
            Internal::apply_flags => "apply flags (eg `-sd` to show sizes and dates)"@,
            Internal::back => "revert to the previous state (mapped to *esc*)"@,
            Internal::default_layout => "restore default panel sizes"@,
            Internal::clear_output => "clear the --verb-output file"@,
            Internal::clear_stage => "empty the staging area"@,
            Internal::close_panel_cancel => "close the panel, not using the selected path"@,
            Internal::close_panel_ok => "close the panel, validating the selected path"@,
            Internal::close_preview => "close the preview panel"@,
            Internal::close_staging_area => "close the staging area panel"@,
            Internal::copy_line => "copy selected line (in tree or preview)"@,
            Internal::copy_path => "copy path to system clipboard"@,
            Internal::escape => "escape from edition, completion, page, etc."@,
            Internal::filesystems => "list mounted filesystems"@,
            Internal::focus => "display the directory (mapped to *enter*)"@,
            Internal::focus_staging_area_no_open => "focus the staging area if already open"@,
            Internal::help => "display broot's help"@,
            Internal::input_clear => "empty the input"@,
            Internal::input_del_char_below => "delete the char left at the cursor's position"@,
            Internal::input_del_char_left => "delete the char left of the cursor"@,
            Internal::input_del_word_left => "delete the word left of the cursor"@,
            Internal::input_del_word_right => "delete the word right of the cursor"@,
            Internal::input_go_left => "move the cursor to the left"@,
            Internal::input_go_right => "move the cursor to the right"@,
            Internal::input_go_to_end => "move the cursor to the end of input"@,
            Internal::input_go_to_start => "move the cursor to the start of input"@,
            Internal::input_go_word_left => "move the cursor one word to the left"@,
            Internal::input_go_word_right => "move the cursor one word to the right"@,
            Internal::input_paste => "paste the clipboard content into the input"@,
            Internal::input_selection_copy => "copy the selected part of the input into the selection"@,
            Internal::input_selection_cut => "cut the selected part of the input into the selection"@,
            Internal::line_down => "move one line down"@,
            Internal::line_down_no_cycle => "move one line down"@,
            Internal::line_up => "move one line up"@,
            Internal::line_up_no_cycle => "move one line up"@,
            Internal::mode_command => "enter the command mode"@,
            Internal::mode_input => "enter the input mode"@,
            Internal::move_panel_divider => "move a panel divider"@,
            Internal::next_dir => "select the next directory"@,
            Internal::next_match => "select the next match"@,
            Internal::next_same_depth => "select the next file at the same depth"@,
            Internal::no_sort => "don't sort"@,
            Internal::open_leave => "open file or directory according to OS (quit broot)"@,
            Internal::open_preview => "open the preview panel"@,
            Internal::open_staging_area => "open the staging area"@,
            Internal::open_stay => "open file or directory according to OS (stay in broot)"@,
            Internal::open_stay_filter => "display the directory, keeping the current pattern"@,
            Internal::open_trash => "show the content of the trash"@,
            Internal::page_down => "scroll one page down"@,
            Internal::page_up => "scroll one page up"@,
            Internal::panel_left => "focus or open panel on left"@,
            Internal::panel_left_no_open => "focus panel on left"@,
            Internal::panel_right => "focus or open panel on right"@,
            Internal::panel_right_no_open => "focus panel on right"@,
            Internal::parent => "move to the parent directory"@,
            Internal::preview_binary => "preview the selection as binary"@,
            Internal::preview_image => "preview the selection as image"@,
            Internal::preview_text => "preview the selection as text"@,
            Internal::preview_tty => "preview the selection as tty"@,
            Internal::previous_dir => "select the previous directory"@,
            Internal::previous_match => "select the previous match"@,
            Internal::previous_same_depth => "select the previous file at the same depth"@,
            Internal::print_path => "print path and leaves broot"@,
            Internal::print_relative_path => "print relative path and leaves broot"@,
            Internal::print_tree => "print tree and leaves broot"@,
            Internal::quit => "quit Broot"@,
            Internal::refresh => "refresh tree and clear size cache"@,
            Internal::delete_trashed_file => "irreversibly delete a file which is in the trash"@,
            Internal::restore_trashed_file => "restore a file which is in the trash"@,
            Internal::purge_trash => "irreversibly delete the trash's content"@,
            Internal::root_down => "move tree root down"@,
            Internal::root_up => "move tree root up"@,
            Internal::select => "select a file by path"@,
            Internal::show => "reveal and select a file by path"@,
            Internal::select_first => "select the first item"@,
            Internal::select_last => "select the last item"@,
            Internal::set_panel_width => "set the width of a panel"@,
            Internal::set_syntax_theme => "set the theme of code preview"@,
            Internal::sort_by_count => "sort by count"@,
            Internal::sort_by_date => "sort by date"@,
            Internal::sort_by_size => "sort by size"@,
            Internal::sort_by_type => "sort by type"@,
            Internal::sort_by_type_dirs_first => "sort by type, dirs first"@,
            Internal::sort_by_type_dirs_last => "sort by type, dirs last"@,
            Internal::stage => "add selection to staging area"@,
            Internal::stage_all_directories => "stage all matching directories"@,
            Internal::stage_all_files => "stage all matching files"@,
            Internal::start_end_panel => "either open or close an additional panel"@,
            Internal::toggle_counts => "toggle showing number of files in directories"@,
            Internal::toggle_dates => "toggle showing last modified dates"@,
            Internal::toggle_device_id => "toggle showing device id"@,
            Internal::toggle_files => "toggle showing files (or just folders)"@,
            Internal::toggle_git_file_info => "toggle display of git file information"@,
            Internal::toggle_git_ignore => "toggle use of .gitignore and .ignore"@,
            Internal::toggle_git_status => "toggle showing only files relevant for git status"@,
            Internal::toggle_hidden => "toggle showing hidden files"@,
            Internal::toggle_ignore => "toggle use of .gitignore and .ignore"@,
            Internal::toggle_perm => "toggle showing file permissions"@,
            Internal::toggle_preview => "open/close the preview panel"@,
            Internal::toggle_root_fs => "toggle showing filesystem info on top"@,
            Internal::set_max_depth => "set the maximum directory depth shown"@,
            Internal::unset_max_depth => "clear the max_depth"@,
            Internal::toggle_second_tree => "toggle display of a second tree panel"@,
            Internal::toggle_sizes => "toggle showing sizes"@,
            Internal::toggle_stage => "add or remove selection to staging area"@,
            Internal::toggle_staging_area => "open/close the staging area panel"@,
            Internal::toggle_tree => "toggle showing more than one level of the tree"@,
            Internal::toggle_trim_root => "toggle removing nodes at first level too"@,
            Internal::total_search => "search again but on all children"@,
            Internal::search_again => "either put back last search, or search deeper"@,
            Internal::trash => "move file to system trash"@,
            Internal::unstage => "remove selection from staging area"@,
            Internal::up_tree => "focus the parent of the current root"@,
            Internal::write_output => "write the argument to the --verb-output file"@,
        }
    }

    /// The human description of the action.
    pub fn description(self) -> (r: &'static str)
        ensures
            r@ == self.spec_description(),
    {
        match self {
            Internal::apply_flags => "apply flags (eg `-sd` to show sizes and dates)",
            Internal::back => "revert to the previous state (mapped to *esc*)",
            Internal::default_layout => "restore default panel sizes",
            Internal::clear_output => "clear the --verb-output file",
            Internal::clear_stage => "empty the staging area",
            Internal::close_panel_cancel => "close the panel, not using the selected path",
            Internal::close_panel_ok => "close the panel, validating the selected path",
            Internal::close_preview => "close the preview panel",
            Internal::close_staging_area => "close the staging area panel",
            Internal::copy_line => "copy selected line (in tree or preview)",
            Internal::copy_path => "copy path to system clipboard",
            Internal::escape => "escape from edition, completion, page, etc.",
            Internal::filesystems => "list mounted filesystems",
            Internal::focus => "display the directory (mapped to *enter*)",
            Internal::focus_staging_area_no_open => "focus the staging area if already open",
            Internal::help => "display broot's help",
            Internal::input_clear => "empty the input",
            Internal::input_del_char_below => "delete the char left at the cursor's position",
            Internal::input_del_char_left => "delete the char left of the cursor",
            Internal::input_del_word_left => "delete the word left of the cursor",
            Internal::input_del_word_right => "delete the word right of the cursor",
            Internal::input_go_left => "move the cursor to the left",
            Internal::input_go_right => "move the cursor to the right",
            Internal::input_go_to_end => "move the cursor to the end of input",
            Internal::input_go_to_start => "move the cursor to the start of input",
            Internal::input_go_word_left => "move the cursor one word to the left",
            Internal::input_go_word_right => "move the cursor one word to the right",
            Internal::input_paste => "paste the clipboard content into the input",
            Internal::input_selection_copy => "copy the selected part of the input into the selection",
            Internal::input_selection_cut => "cut the selected part of the input into the selection",
            Internal::line_down => "move one line down",
            Internal::line_down_no_cycle => "move one line down",
            Internal::line_up => "move one line up",
            Internal::line_up_no_cycle => "move one line up",
            Internal::mode_command => "enter the command mode",
            Internal::mode_input => "enter the input mode",
            Internal::move_panel_divider => "move a panel divider",
            Internal::next_dir => "select the next directory",
            Internal::next_match => "select the next match",
            Internal::next_same_depth => "select the next file at the same depth",
            Internal::no_sort => "don't sort",
            Internal::open_leave => "open file or directory according to OS (quit broot)",
            Internal::open_preview => "open the preview panel",
            Internal::open_staging_area => "open the staging area",
            Internal::open_stay => "open file or directory according to OS (stay in broot)",
            Internal::open_stay_filter => "display the directory, keeping the current pattern",
            Internal::open_trash => "show the content of the trash",
            Internal::page_down => "scroll one page down",
            Internal::page_up => "scroll one page up",
            Internal::panel_left => "focus or open panel on left",
            Internal::panel_left_no_open => "focus panel on left",
            Internal::panel_right => "focus or open panel on right",
            Internal::panel_right_no_open => "focus panel on right",
            Internal::parent => "move to the parent directory",
            Internal::preview_binary => "preview the selection as binary",
            Internal::preview_image => "preview the selection as image",
            Internal::preview_text => "preview the selection as text",
            Internal::preview_tty => "preview the selection as tty",
            Internal::previous_dir => "select the previous directory",
            Internal::previous_match => "select the previous match",
            Internal::previous_same_depth => "select the previous file at the same depth",
            Internal::print_path => "print path and leaves broot",
            Internal::print_relative_path => "print relative path and leaves broot",
            Internal::print_tree => "print tree and leaves broot",
            Internal::quit => "quit Broot",
            Internal::refresh => "refresh tree and clear size cache",
            Internal::delete_trashed_file => "irreversibly delete a file which is in the trash",
            Internal::restore_trashed_file => "restore a file which is in the trash",
            Internal::purge_trash => "irreversibly delete the trash's content",
            Internal::root_down => "move tree root down",
            Internal::root_up => "move tree root up",
            Internal::select => "select a file by path",
            Internal::show => "reveal and select a file by path",
            Internal::select_first => "select the first item",
            Internal::select_last => "select the last item",
            Internal::set_panel_width => "set the width of a panel",
            Internal::set_syntax_theme => "set the theme of code preview",
            Internal::sort_by_count => "sort by count",
            Internal::sort_by_date => "sort by date",
            Internal::sort_by_size => "sort by size",
            Internal::sort_by_type => "sort by type",
            Internal::sort_by_type_dirs_first => "sort by type, dirs first",
            Internal::sort_by_type_dirs_last => "sort by type, dirs last",
            Internal::stage => "add selection to staging area",
            Internal::stage_all_directories => "stage all matching directories",
            Internal::stage_all_files => "stage all matching files",
            Internal::start_end_panel => "either open or close an additional panel",
            Internal::toggle_counts => "toggle showing number of files in directories",
            Internal::toggle_dates => "toggle showing last modified dates",
            Internal::toggle_device_id => "toggle showing device id",
            Internal::toggle_files => "toggle showing files (or just folders)",
            Internal::toggle_git_file_info => "toggle display of git file information",
            Internal::toggle_git_ignore => "toggle use of .gitignore and .ignore",
            Internal::toggle_git_status => "toggle showing only files relevant for git status",
            Internal::toggle_hidden => "toggle showing hidden files",
            Internal::toggle_ignore => "toggle use of .gitignore and .ignore",
            Internal::toggle_perm => "toggle showing file permissions",
            Internal::toggle_preview => "open/close the preview panel",
            Internal::toggle_root_fs => "toggle showing filesystem info on top",
            Internal::set_max_depth => "set the maximum directory depth shown",
            Internal::unset_max_depth => "clear the max_depth",
            Internal::toggle_second_tree => "toggle display of a second tree panel",
            Internal::toggle_sizes => "toggle showing sizes",
            Internal::toggle_stage => "add or remove selection to staging area",
            Internal::toggle_staging_area => "open/close the staging area panel",
            Internal::toggle_tree => "toggle showing more than one level of the tree",
            Internal::toggle_trim_root => "toggle removing nodes at first level too",
            Internal::total_search => "search again but on all children",
            Internal::search_again => "either put back last search, or search deeper",
            Internal::trash => "move file to system trash",
            Internal::unstage => "remove selection from staging area",
            Internal::up_tree => "focus the parent of the current root",
            Internal::write_output => "write the argument to the --verb-output file",
        }
    }

    /// Whether the action works on a selected path.
    pub open spec fn spec_need_path(self) -> bool {
        match self {
            Internal::apply_flags => false,
            Internal::back => false,
            Internal::default_layout => false,
            Internal::clear_output => false,
            Internal::clear_stage => false,
            Internal::close_panel_cancel => false,
            Internal::close_panel_ok => false,
            Internal::close_preview => false,
            Internal::close_staging_area => false,
            Internal::copy_line => true,
            Internal::copy_path => true,
            Internal::escape => false,
            Internal::filesystems => false,
            Internal::focus => true,
            Internal::focus_staging_area_no_open => false,
            Internal::help => false,
            Internal::input_clear => false,
            Internal::input_del_char_below => false,
            Internal::input_del_char_left => false,
            Internal::input_del_word_left => false,
            Internal::input_del_word_right => false,
            Internal::input_go_left => false,
            Internal::input_go_right => false,
            Internal::input_go_to_end => false,
            Internal::input_go_to_start => false,
            Internal::input_go_word_left => false,
            Internal::input_go_word_right => false,
            Internal::input_paste => false,
            Internal::input_selection_copy => false,
            Internal::input_selection_cut => false,
            Internal::line_down => false,
            Internal::line_down_no_cycle => false,
            Internal::line_up => false,
            Internal::line_up_no_cycle => false,
            Internal::mode_command => false,
            Internal::mode_input => false,
            Internal::move_panel_divider => false,
            Internal::next_dir => false,
            Internal::next_match => false,
            Internal::next_same_depth => false,
            Internal::no_sort => false,
            Internal::open_leave => true,
            Internal::open_preview => true,
            Internal::open_staging_area => false,
            Internal::open_stay => true,
            Internal::open_stay_filter => true,
            Internal::open_trash => false,
            Internal::page_down => false,
            Internal::page_up => false,
            Internal::panel_left => false,
            Internal::panel_left_no_open => false,
            Internal::panel_right => false,
            Internal::panel_right_no_open => false,
            Internal::parent => false,
            Internal::preview_binary => true,
            Internal::preview_image => true,
            Internal::preview_text => true,
            Internal::preview_tty => true,
            Internal::previous_dir => false,
            Internal::previous_match => false,
            Internal::previous_same_depth => false,
            Internal::print_path => true,
            Internal::print_relative_path => true,
            Internal::print_tree => true,
            Internal::quit => false,
            Internal::refresh => false,
            Internal::delete_trashed_file => false,
            Internal::restore_trashed_file => false,
            Internal::purge_trash => false,
            Internal::root_down => true,
            Internal::root_up => true,
            Internal::select => true,
            Internal::show => true,
            Internal::select_first => false,
            Internal::select_last => false,
            Internal::set_panel_width => false,
            Internal::set_syntax_theme => false,
            Internal::sort_by_count => false,
            Internal::sort_by_date => false,
            Internal::sort_by_size => false,
            Internal::sort_by_type => false,
            Internal::sort_by_type_dirs_first => false,
            Internal::sort_by_type_dirs_last => false,
            Internal::stage => true,
            Internal::stage_all_directories => true,
            Internal::stage_all_files => true,
            Internal::start_end_panel => true,
            Internal::toggle_counts => false,
            Internal::toggle_dates => false,
            Internal::toggle_device_id => false,
            Internal::toggle_files => false,
            Internal::toggle_git_file_info => false,
            Internal::toggle_git_ignore => false,
            Internal::toggle_git_status => false,
            Internal::toggle_hidden => false,
            Internal::toggle_ignore => false,
            Internal::toggle_perm => false,
            Internal::toggle_preview => false,
            Internal::toggle_root_fs => false,
            Internal::set_max_depth => false,
            Internal::unset_max_depth => false,
            Internal::toggle_second_tree => true,
            Internal::toggle_sizes => false,
            Internal::toggle_stage => true,
            Internal::toggle_staging_area => false,
            Internal::toggle_tree => true,
            Internal::toggle_trim_root => false,
            Internal::total_search => false,
            Internal::search_again => false,
            Internal::trash => true,
            Internal::unstage => true,
            Internal::up_tree => true,
            Internal::write_output => false,
        }
    }

    /// Whether the action works on a selected path.
    pub fn need_path(self) -> (r: bool)
        ensures
            r == self.spec_need_path(),
    {
        match self {
            Internal::apply_flags => false,
            Internal::back => false,
            Internal::default_layout => false,
            Internal::clear_output => false,
            Internal::clear_stage => false,
            Internal::close_panel_cancel => false,
            Internal::close_panel_ok => false,
            Internal::close_preview => false,
            Internal::close_staging_area => false,
            Internal::copy_line => true,
            Internal::copy_path => true,
            Internal::escape => false,
            Internal::filesystems => false,
            Internal::focus => true,
            Internal::focus_staging_area_no_open => false,
            Internal::help => false,
            Internal::input_clear => false,
            Internal::input_del_char_below => false,
            Internal::input_del_char_left => false,
            Internal::input_del_word_left => false,
            Internal::input_del_word_right => false,
            Internal::input_go_left => false,
            Internal::input_go_right => false,
            Internal::input_go_to_end => false,
            Internal::input_go_to_start => false,
            Internal::input_go_word_left => false,
            Internal::input_go_word_right => false,
            Internal::input_paste => false,
            Internal::input_selection_copy => false,
            Internal::input_selection_cut => false,
            Internal::line_down => false,
            Internal::line_down_no_cycle => false,
            Internal::line_up => false,
            Internal::line_up_no_cycle => false,
            Internal::mode_command => false,
            Internal::mode_input => false,
            Internal::move_panel_divider => false,
            Internal::next_dir => false,
            Internal::next_match => false,
            Internal::next_same_depth => false,
            Internal::no_sort => false,
            Internal::open_leave => true,
            Internal::open_preview => true,
            Internal::open_staging_area => false,
            Internal::open_stay => true,
            Internal::open_stay_filter => true,
            Internal::open_trash => false,
            Internal::page_down => false,
            Internal::page_up => false,
            Internal::panel_left => false,
            Internal::panel_left_no_open => false,
            Internal::panel_right => false,
            Internal::panel_right_no_open => false,
            Internal::parent => false,
            Internal::preview_binary => true,
            Internal::preview_image => true,
            Internal::preview_text => true,
            Internal::preview_tty => true,
            Internal::previous_dir => false,
            Internal::previous_match => false,
            Internal::previous_same_depth => false,
            Internal::print_path => true,
            Internal::print_relative_path => true,
            Internal::print_tree => true,
            Internal::quit => false,
            Internal::refresh => false,
            Internal::delete_trashed_file => false,
            Internal::restore_trashed_file => false,
            Internal::purge_trash => false,
            Internal::root_down => true,
            Internal::root_up => true,
            Internal::select => true,
            Internal::show => true,
            Internal::select_first => false,
            Internal::select_last => false,
            Internal::set_panel_width => false,
            Internal::set_syntax_theme => false,
            Internal::sort_by_count => false,
            Internal::sort_by_date => false,
            Internal::sort_by_size => false,
            Internal::sort_by_type => false,
            Internal::sort_by_type_dirs_first => false,
            Internal::sort_by_type_dirs_last => false,
            Internal::stage => true,
            Internal::stage_all_directories => true,
            Internal::stage_all_files => true,
            Internal::start_end_panel => true,
            Internal::toggle_counts => false,
            Internal::toggle_dates => false,
            Internal::toggle_device_id => false,
            Internal::toggle_files => false,
            Internal::toggle_git_file_info => false,
            Internal::toggle_git_ignore => false,
            Internal::toggle_git_status => false,
            Internal::toggle_hidden => false,
            Internal::toggle_ignore => false,
            Internal::toggle_perm => false,
            Internal::toggle_preview => false,
            Internal::toggle_root_fs => false,
            Internal::set_max_depth => false,
            Internal::unset_max_depth => false,
            Internal::toggle_second_tree => true,
            Internal::toggle_sizes => false,
            Internal::toggle_stage => true,
            Internal::toggle_staging_area => false,
            Internal::toggle_tree => true,
            Internal::toggle_trim_root => false,
            Internal::total_search => false,
            Internal::search_again => false,
            Internal::trash => true,
            Internal::unstage => true,
            Internal::up_tree => true,
            Internal::write_output => false,
        }
    }

    /// The invocation pattern: how typed text is read into named arguments.
    /// An action that takes no argument is invoked by its name alone.
    pub open spec fn spec_invocation_pattern(self) -> Seq<char> {
        match self {
            Internal::apply_flags => r"-(?P<flags>\w+)?"@,
            Internal::focus => r"focus (?P<path>.*)?"@,
            Internal::select => r"select (?P<path>.*)?"@,
            Internal::show => r"show (?P<path>.*)?"@,
            Internal::line_down => r"line_down (?P<count>\d*)?"@,
            Internal::line_up => r"line_up (?P<count>\d*)?"@,
            Internal::line_down_no_cycle => r"line_down_no_cycle (?P<count>\d*)?"@,
            Internal::line_up_no_cycle => r"line_up_no_cycle (?P<count>\d*)?"@,
            Internal::move_panel_divider => r"move_panel_divider (?P<idx>\d+) (?P<dx>-?\d+)"@,
            Internal::set_panel_width => r"set_panel_width (?P<idx>\d+) (?P<width>\d+)"@,
            Internal::set_max_depth => r"set_max_depth (?P<depth>\d+)"@,
            Internal::set_syntax_theme => r"set_syntax_theme {theme:theme}"@,
            Internal::write_output => r"write_output (?P<line>.*)"@,
            _ => self.spec_name(),
        }
    }

    /// The invocation pattern of the action.
    pub fn invocation_pattern(self) -> (r: &'static str)
        ensures
            r@ == self.spec_invocation_pattern(),
    {
        match self {
            Internal::apply_flags => r"-(?P<flags>\w+)?",
            Internal::focus => r"focus (?P<path>.*)?",
            Internal::select => r"select (?P<path>.*)?",
            Internal::show => r"show (?P<path>.*)?",
            Internal::line_down => r"line_down (?P<count>\d*)?",
            Internal::line_up => r"line_up (?P<count>\d*)?",
            Internal::line_down_no_cycle => r"line_down_no_cycle (?P<count>\d*)?",
            Internal::line_up_no_cycle => r"line_up_no_cycle (?P<count>\d*)?",
            Internal::move_panel_divider => r"move_panel_divider (?P<idx>\d+) (?P<dx>-?\d+)",
            Internal::set_panel_width => r"set_panel_width (?P<idx>\d+) (?P<width>\d+)",
            Internal::set_max_depth => r"set_max_depth (?P<depth>\d+)",
            Internal::set_syntax_theme => r"set_syntax_theme {theme:theme}",
            Internal::write_output => r"write_output (?P<line>.*)",
            _ => self.name(),
        }
    }

    /// The execution pattern: the command text with `{placeholder}` slots.
    pub open spec fn spec_exec_pattern(self) -> Seq<char> {
        match self {
            Internal::apply_flags => "apply_flags {flags}"@,
            Internal::focus => "focus {path}"@,
            Internal::line_down => "line_down {count}"@,
            Internal::line_up => "line_up {count}"@,
            Internal::line_down_no_cycle => "line_down_no_cycle {count}"@,
            Internal::line_up_no_cycle => "line_up_no_cycle {count}"@,
            Internal::move_panel_divider => "move_panel_divider {idx} {dx}"@,
            Internal::set_panel_width => "set_panel_width {idx} {width}"@,
            Internal::write_output => "write_output {line}"@,
            _ => self.spec_name(),
        }
    }

    /// The execution pattern of the action.
    pub fn exec_pattern(self) -> (r: &'static str)
        ensures
            r@ == self.spec_exec_pattern(),
    {
        match self {
            Internal::apply_flags => "apply_flags {flags}",
            Internal::focus => "focus {path}",
            Internal::line_down => "line_down {count}",
            Internal::line_up => "line_up {count}",
            Internal::line_down_no_cycle => "line_down_no_cycle {count}",
            Internal::line_up_no_cycle => "line_up_no_cycle {count}",
            Internal::move_panel_divider => "move_panel_divider {idx} {dx}",
            Internal::set_panel_width => "set_panel_width {idx} {width}",
            Internal::write_output => "write_output {line}",
            _ => self.name(),
        }
    }

    /// Whether a live selection must exist before the action runs: the
    /// focus action given a literal argument needs none, every other action
    /// needs one exactly when it works on a path.
    pub open spec fn spec_needs_selection(self, has_arg: bool) -> bool {
        if self == Internal::focus {
            !has_arg
        } else {
            self.spec_need_path()
        }
    }

    /// Whether a live selection must exist before the action runs.
    pub fn needs_selection(self, arg: &Option<String>) -> (r: bool)
        ensures
            r == self.spec_needs_selection(arg.is_some()),
    {
        match self {
            Internal::focus => arg.is_none(),
            _ => self.need_path(),
        }
    }

    /// Whether the action edits the text-input line (cursor moves, deletion,
    /// paste, copy or cut of the input's selected part).
    pub open spec fn spec_is_input_related(self) -> bool {
        match self {
            Internal::input_clear => true,
            Internal::input_del_char_below => true,
            Internal::input_del_char_left => true,
            Internal::input_del_word_left => true,
            Internal::input_del_word_right => true,
            Internal::input_go_left => true,
            Internal::input_go_right => true,
            Internal::input_go_to_end => true,
            Internal::input_go_to_start => true,
            Internal::input_go_word_left => true,
            Internal::input_go_word_right => true,
            Internal::input_paste => true,
            Internal::input_selection_copy => true,
            Internal::input_selection_cut => true,
            _ => false,
        }
    }

    /// Whether the action edits the text-input line.
    pub fn is_input_related(self) -> (r: bool)
        ensures
            r == self.spec_is_input_related(),
    {
        match self {
            Internal::input_clear => true,
            Internal::input_del_char_below => true,
            Internal::input_del_char_left => true,
            Internal::input_del_word_left => true,
            Internal::input_del_word_right => true,
            Internal::input_go_left => true,
            Internal::input_go_right => true,
            Internal::input_go_to_end => true,
            Internal::input_go_to_start => true,
            Internal::input_go_word_left => true,
            Internal::input_go_word_right => true,
            Internal::input_paste => true,
            Internal::input_selection_copy => true,
            Internal::input_selection_cut => true,
            _ => false,
        }
    }

    /// Looks up an action by its name.
    pub fn try_from(verb: &str) -> (r: Result<Internal, ConfError>)
        ensures
            match r {
                Ok(i) => i.spec_name() == verb@,
                Err(ConfError::UnknownInternal { verb: v }) => spec_lookup(verb@) is None && v@ == verb@,
            },
    {
        if str_eq(verb, "apply_flags") {
            return Ok(Internal::apply_flags);
        }
        if str_eq(verb, "back") {
            return Ok(Internal::back);
        }
        if str_eq(verb, "default_layout") {
            return Ok(Internal::default_layout);
        }
        if str_eq(verb, "clear_output") {
            return Ok(Internal::clear_output);
        }
        if str_eq(verb, "clear_stage") {
            return Ok(Internal::clear_stage);
        }
        if str_eq(verb, "close_panel_cancel") {
            return Ok(Internal::close_panel_cancel);
        }
        if str_eq(verb, "close_panel_ok") {
            return Ok(Internal::close_panel_ok);
        }
        if str_eq(verb, "close_preview") {
            return Ok(Internal::close_preview);
        }
        if str_eq(verb, "close_staging_area") {
            return Ok(Internal::close_staging_area);
        }
        if str_eq(verb, "copy_line") {
            return Ok(Internal::copy_line);
        }
        if str_eq(verb, "copy_path") {
            return Ok(Internal::copy_path);
        }
        if str_eq(verb, "escape") {
            return Ok(Internal::escape);
        }
        if str_eq(verb, "filesystems") {
            return Ok(Internal::filesystems);
        }
        if str_eq(verb, "focus") {
            return Ok(Internal::focus);
        }
        if str_eq(verb, "focus_staging_area_no_open") {
            return Ok(Internal::focus_staging_area_no_open);
        }
        if str_eq(verb, "help") {
            return Ok(Internal::help);
        }
        if str_eq(verb, "input_clear") {
            return Ok(Internal::input_clear);
        }
        if str_eq(verb, "input_del_char_below") {
            return Ok(Internal::input_del_char_below);
        }
        if str_eq(verb, "input_del_char_left") {
            return Ok(Internal::input_del_char_left);
        }
        if str_eq(verb, "input_del_word_left") {
            return Ok(Internal::input_del_word_left);
        }
        if str_eq(verb, "input_del_word_right") {
            return Ok(Internal::input_del_word_right);
        }
        if str_eq(verb, "input_go_left") {
            return Ok(Internal::input_go_left);
        }
        if str_eq(verb, "input_go_right") {
            return Ok(Internal::input_go_right);
        }
        if str_eq(verb, "input_go_to_end") {
            return Ok(Internal::input_go_to_end);
        }
        if str_eq(verb, "input_go_to_start") {
            return Ok(Internal::input_go_to_start);
        }
        if str_eq(verb, "input_go_word_left") {
            return Ok(Internal::input_go_word_left);
        }
        if str_eq(verb, "input_go_word_right") {
            return Ok(Internal::input_go_word_right);
        }
        if str_eq(verb, "input_paste") {
            return Ok(Internal::input_paste);
        }
        if str_eq(verb, "input_selection_copy") {
            return Ok(Internal::input_selection_copy);
        }
        if str_eq(verb, "input_selection_cut") {
            return Ok(Internal::input_selection_cut);
        }
        if str_eq(verb, "line_down") {
            return Ok(Internal::line_down);
        }
        if str_eq(verb, "line_down_no_cycle") {
            return Ok(Internal::line_down_no_cycle);
        }
        if str_eq(verb, "line_up") {
            return Ok(Internal::line_up);
        }
        if str_eq(verb, "line_up_no_cycle") {
            return Ok(Internal::line_up_no_cycle);
        }
        if str_eq(verb, "mode_command") {
            return Ok(Internal::mode_command);
        }
        if str_eq(verb, "mode_input") {
            return Ok(Internal::mode_input);
        }
        if str_eq(verb, "move_panel_divider") {
            return Ok(Internal::move_panel_divider);
        }
        if str_eq(verb, "next_dir") {
            return Ok(Internal::next_dir);
        }
        if str_eq(verb, "next_match") {
            return Ok(Internal::next_match);
        }
        if str_eq(verb, "next_same_depth") {
            return Ok(Internal::next_same_depth);
        }
        if str_eq(verb, "no_sort") {
            return Ok(Internal::no_sort);
        }
        if str_eq(verb, "open_leave") {
            return Ok(Internal::open_leave);
        }
        if str_eq(verb, "open_preview") {
            return Ok(Internal::open_preview);
        }
        if str_eq(verb, "open_staging_area") {
            return Ok(Internal::open_staging_area);
        }
        if str_eq(verb, "open_stay") {
            return Ok(Internal::open_stay);
        }
        if str_eq(verb, "open_stay_filter") {
            return Ok(Internal::open_stay_filter);
        }
        if str_eq(verb, "open_trash") {
            return Ok(Internal::open_trash);
        }
        if str_eq(verb, "page_down") {
            return Ok(Internal::page_down);
        }
        if str_eq(verb, "page_up") {
            return Ok(Internal::page_up);
        }
        if str_eq(verb, "panel_left") {
            return Ok(Internal::panel_left);
        }
        if str_eq(verb, "panel_left_no_open") {
            return Ok(Internal::panel_left_no_open);
        }
        if str_eq(verb, "panel_right") {
            return Ok(Internal::panel_right);
        }
        if str_eq(verb, "panel_right_no_open") {
            return Ok(Internal::panel_right_no_open);
        }
        if str_eq(verb, "parent") {
            return Ok(Internal::parent);
        }
        if str_eq(verb, "preview_binary") {
            return Ok(Internal::preview_binary);
        }
        if str_eq(verb, "preview_image") {
            return Ok(Internal::preview_image);
        }
        if str_eq(verb, "preview_text") {
            return Ok(Internal::preview_text);
        }
        if str_eq(verb, "preview_tty") {
            return Ok(Internal::preview_tty);
        }
        if str_eq(verb, "previous_dir") {
            return Ok(Internal::previous_dir);
        }
        if str_eq(verb, "previous_match") {
            return Ok(Internal::previous_match);
        }
        if str_eq(verb, "previous_same_depth") {
            return Ok(Internal::previous_same_depth);
        }
        if str_eq(verb, "print_path") {
            return Ok(Internal::print_path);
        }
        if str_eq(verb, "print_relative_path") {
            return Ok(Internal::print_relative_path);
        }
        if str_eq(verb, "print_tree") {
            return Ok(Internal::print_tree);
        }
        if str_eq(verb, "quit") {
            return Ok(Internal::quit);
        }
        if str_eq(verb, "refresh") {
            return Ok(Internal::refresh);
        }
        if str_eq(verb, "delete_trashed_file") {
            return Ok(Internal::delete_trashed_file);
        }
        if str_eq(verb, "restore_trashed_file") {
            return Ok(Internal::restore_trashed_file);
        }
        if str_eq(verb, "purge_trash") {
            return Ok(Internal::purge_trash);
        }
        if str_eq(verb, "root_down") {
            return Ok(Internal::root_down);
        }
        if str_eq(verb, "root_up") {
            return Ok(Internal::root_up);
        }
        if str_eq(verb, "select") {
            return Ok(Internal::select);
        }
        if str_eq(verb, "show") {
            return Ok(Internal::show);
        }
        if str_eq(verb, "select_first") {
            return Ok(Internal::select_first);
        }
        if str_eq(verb, "select_last") {
            return Ok(Internal::select_last);
        }
        if str_eq(verb, "set_panel_width") {
            return Ok(Internal::set_panel_width);
        }
        if str_eq(verb, "set_syntax_theme") {
            return Ok(Internal::set_syntax_theme);
        }
        if str_eq(verb, "sort_by_count") {
            return Ok(Internal::sort_by_count);
        }
        if str_eq(verb, "sort_by_date") {
            return Ok(Internal::sort_by_date);
        }
        if str_eq(verb, "sort_by_size") {
            return Ok(Internal::sort_by_size);
        }
        if str_eq(verb, "sort_by_type") {
            return Ok(Internal::sort_by_type);
        }
        if str_eq(verb, "sort_by_type_dirs_first") {
            return Ok(Internal::sort_by_type_dirs_first);
        }
        if str_eq(verb, "sort_by_type_dirs_last") {
            return Ok(Internal::sort_by_type_dirs_last);
        }
        if str_eq(verb, "stage") {
            return Ok(Internal::stage);
        }
        if str_eq(verb, "stage_all_directories") {
            return Ok(Internal::stage_all_directories);
        }
        if str_eq(verb, "stage_all_files") {
            return Ok(Internal::stage_all_files);
        }
        if str_eq(verb, "start_end_panel") {
            return Ok(Internal::start_end_panel);
        }
        if str_eq(verb, "toggle_counts") {
            return Ok(Internal::toggle_counts);
        }
        if str_eq(verb, "toggle_dates") {
            return Ok(Internal::toggle_dates);
        }
        if str_eq(verb, "toggle_device_id") {
            return Ok(Internal::toggle_device_id);
        }
        if str_eq(verb, "toggle_files") {
            return Ok(Internal::toggle_files);
        }
        if str_eq(verb, "toggle_git_file_info") {
            return Ok(Internal::toggle_git_file_info);
        }
        if str_eq(verb, "toggle_git_ignore") {
            return Ok(Internal::toggle_git_ignore);
        }
        if str_eq(verb, "toggle_git_status") {
            return Ok(Internal::toggle_git_status);
        }
        if str_eq(verb, "toggle_hidden") {
            return Ok(Internal::toggle_hidden);
        }
        if str_eq(verb, "toggle_ignore") {
            return Ok(Internal::toggle_ignore);
        }
        if str_eq(verb, "toggle_perm") {
            return Ok(Internal::toggle_perm);
        }
        if str_eq(verb, "toggle_preview") {
            return Ok(Internal::toggle_preview);
        }
        if str_eq(verb, "toggle_root_fs") {
            return Ok(Internal::toggle_root_fs);
        }
        if str_eq(verb, "set_max_depth") {
            return Ok(Internal::set_max_depth);
        }
        if str_eq(verb, "unset_max_depth") {
            return Ok(Internal::unset_max_depth);
        }
        if str_eq(verb, "toggle_second_tree") {
            return Ok(Internal::toggle_second_tree);
        }
        if str_eq(verb, "toggle_sizes") {
            return Ok(Internal::toggle_sizes);
        }
        if str_eq(verb, "toggle_stage") {
            return Ok(Internal::toggle_stage);
        }
        if str_eq(verb, "toggle_staging_area") {
            return Ok(Internal::toggle_staging_area);
        }
        if str_eq(verb, "toggle_tree") {
            return Ok(Internal::toggle_tree);
        }
        if str_eq(verb, "toggle_trim_root") {
            return Ok(Internal::toggle_trim_root);
        }
        if str_eq(verb, "total_search") {
            return Ok(Internal::total_search);
        }
        if str_eq(verb, "search_again") {
            return Ok(Internal::search_again);
        }
        if str_eq(verb, "trash") {
            return Ok(Internal::trash);
        }
        if str_eq(verb, "unstage") {
            return Ok(Internal::unstage);
        }
        if str_eq(verb, "up_tree") {
            return Ok(Internal::up_tree);
        }
        if str_eq(verb, "write_output") {
            return Ok(Internal::write_output);
        }
        Err(ConfError::UnknownInternal { verb: crate::text::owned(verb) })
    }
}

/// Looking up the name of any action of the catalog succeeds, and the
/// action found carries that same name.
pub proof fn lemma_lookup_name_round_trip(i: Internal)
    ensures
        spec_lookup(i.spec_name()) is Some,
        spec_lookup(i.spec_name())->0.spec_name() == i.spec_name(),
{
    assert(exists|j: Internal| j.spec_name() == i.spec_name());
}

/// The focus action needs a selection exactly when no literal argument is
/// bound to it; quitting never needs one.
pub proof fn lemma_needs_selection_focus_and_quit(has_arg: bool)
    ensures
        !Internal::focus.spec_needs_selection(true),
        Internal::focus.spec_needs_selection(false),
        !Internal::quit.spec_needs_selection(has_arg),
{
}

} // verus!
