//! Every action a key can be bound to in the interactive viewer.

use vstd::prelude::*;

verus! {

/// An action the viewer can perform in response to a key press.
#[derive(Clone, Copy, Debug, PartialEq, Eq, Structural)]
pub enum Action {
    // Application
    Quit,
    // Navigation
    Next,
    Previous,
    First,
    Last,
    PageDown,
    PageUp,
    JumpToParent,
    // Outline
    Expand,
    Collapse,
    ToggleExpand,
    ToggleFocus,
    ToggleOutline,
    OutlineWidthIncrease,
    OutlineWidthDecrease,
    // View
    ToggleHelp,
    ToggleThemePicker,
    ToggleRawSource,
    // Theme picker
    ThemePickerNext,
    ThemePickerPrevious,
    ApplyTheme,
    // Help navigation
    HelpScrollDown,
    HelpScrollUp,
    // Mode transitions
    EnterInteractiveMode,
    ExitInteractiveMode,
    EnterLinkFollowMode,
    EnterSearchMode,
    ExitMode,
    // Search
    SearchBackspace,
    ConfirmAction,
    CancelAction,
    // Link following
    NextLink,
    PreviousLink,
    FollowLink,
    LinkSearch,
    JumpToLink1,
    JumpToLink2,
    JumpToLink3,
    JumpToLink4,
    JumpToLink5,
    JumpToLink6,
    JumpToLink7,
    JumpToLink8,
    JumpToLink9,
    // Interactive mode
    InteractiveNext,
    InteractivePrevious,
    InteractiveNextLink,
    InteractivePreviousLink,
    InteractiveActivate,
    InteractiveLeft,
    InteractiveRight,
    // Clipboard
    CopyContent,
    CopyAnchor,
    // Bookmarks
    SetBookmark,
    JumpToBookmark,
    // Jump to heading by number
    JumpToHeading1,
    JumpToHeading2,
    JumpToHeading3,
    JumpToHeading4,
    JumpToHeading5,
    JumpToHeading6,
    JumpToHeading7,
    JumpToHeading8,
    JumpToHeading9,
    // File operations
    GoBack,
    GoForward,
    OpenInEditor,
    // Content scrolling
    ScrollDown,
    ScrollUp,
}

} // verus!
