use imgui::flags::{
    ImGuiAlign, ImGuiAlign_All, ImGuiAlign_Center, ImGuiAlign_Default, ImGuiAlign_Left,
    ImGuiAlign_Right, ImGuiAlign_Top, ImGuiAlign_VCenter, ImGuiInputTextFlags,
    ImGuiInputTextFlags_All, ImGuiInputTextFlags_AllowTabInput,
    ImGuiInputTextFlags_AlwaysInsertMode, ImGuiInputTextFlags_AutoSelectAll,
    ImGuiInputTextFlags_CallbackAlways, ImGuiInputTextFlags_CallbackCharFilter,
    ImGuiInputTextFlags_CallbackCompletion, ImGuiInputTextFlags_CallbackHistory,
    ImGuiInputTextFlags_CharsDecimal, ImGuiInputTextFlags_CharsHexadecimal,
    ImGuiInputTextFlags_CharsNoBlank, ImGuiInputTextFlags_CharsUppercase,
    ImGuiInputTextFlags_CtrlEnterForNewLine, ImGuiInputTextFlags_EnterReturnsTrue,
    ImGuiInputTextFlags_Multiline, ImGuiInputTextFlags_NoHorizontalScroll,
    ImGuiInputTextFlags_Password, ImGuiInputTextFlags_ReadOnly, ImGuiSelectableFlags,
    ImGuiSelectableFlags_All, ImGuiSelectableFlags_AllowDoubleClick,
    ImGuiSelectableFlags_DontClosePopups, ImGuiSelectableFlags_SpanAllColumns, ImGuiSetCond,
    ImGuiSetCond_All, ImGuiSetCond_Always, ImGuiSetCond_Appearing, ImGuiSetCond_FirstUseEver,
    ImGuiSetCond_Once, ImGuiTreeNodeFlags, ImGuiTreeNodeFlags_All,
    ImGuiTreeNodeFlags_AllowOverlapMode, ImGuiTreeNodeFlags_Bullet,
    ImGuiTreeNodeFlags_CollapsingHeader, ImGuiTreeNodeFlags_DefaultOpen,
    ImGuiTreeNodeFlags_Framed, ImGuiTreeNodeFlags_Leaf, ImGuiTreeNodeFlags_NoAutoOpenOnLog,
    ImGuiTreeNodeFlags_NoTreePushOnOpen, ImGuiTreeNodeFlags_OpenOnArrow,
    ImGuiTreeNodeFlags_OpenOnDoubleClick, ImGuiTreeNodeFlags_Selected, ImGuiWindowFlags,
    ImGuiWindowFlags_All, ImGuiWindowFlags_AlwaysAutoResize,
    ImGuiWindowFlags_AlwaysHorizontalScrollbar, ImGuiWindowFlags_AlwaysUseWindowPadding,
    ImGuiWindowFlags_AlwaysVerticalScrollbar, ImGuiWindowFlags_ChildMenu,
    ImGuiWindowFlags_ChildWindow, ImGuiWindowFlags_ChildWindowAutoFitX,
    ImGuiWindowFlags_ChildWindowAutoFitY, ImGuiWindowFlags_ComboBox,
    ImGuiWindowFlags_HorizontalScrollbar, ImGuiWindowFlags_MenuBar, ImGuiWindowFlags_Modal,
    ImGuiWindowFlags_NoBringToFrontOnFocus, ImGuiWindowFlags_NoCollapse,
    ImGuiWindowFlags_NoFocusOnAppearing, ImGuiWindowFlags_NoInputs, ImGuiWindowFlags_NoMove,
    ImGuiWindowFlags_NoResize, ImGuiWindowFlags_NoSavedSettings,
    ImGuiWindowFlags_NoScrollWithMouse, ImGuiWindowFlags_NoScrollbar,
    ImGuiWindowFlags_NoTitleBar, ImGuiWindowFlags_Popup, ImGuiWindowFlags_ShowBorders,
    ImGuiWindowFlags_Tooltip,
};

#[test]
fn align_bit_positions() {
    assert_eq!(ImGuiAlign_Left, 1 << 0);
    assert_eq!(ImGuiAlign_Center, 1 << 1);
    assert_eq!(ImGuiAlign_Right, 1 << 2);
    assert_eq!(ImGuiAlign_Top, 1 << 3);
    assert_eq!(ImGuiAlign_VCenter, 1 << 4);
    assert_eq!(ImGuiAlign_Default, ImGuiAlign_Left | ImGuiAlign_Top);
    assert_eq!(ImGuiAlign_All, 0x1F);
}

#[test]
fn window_flag_bit_positions() {
    assert_eq!(ImGuiWindowFlags_NoTitleBar, 1 << 0);
    assert_eq!(ImGuiWindowFlags_NoResize, 1 << 1);
    assert_eq!(ImGuiWindowFlags_NoMove, 1 << 2);
    assert_eq!(ImGuiWindowFlags_NoScrollbar, 1 << 3);
    assert_eq!(ImGuiWindowFlags_NoScrollWithMouse, 1 << 4);
    assert_eq!(ImGuiWindowFlags_NoCollapse, 1 << 5);
    assert_eq!(ImGuiWindowFlags_AlwaysAutoResize, 1 << 6);
    assert_eq!(ImGuiWindowFlags_ShowBorders, 1 << 7);
    assert_eq!(ImGuiWindowFlags_NoSavedSettings, 1 << 8);
    assert_eq!(ImGuiWindowFlags_NoInputs, 1 << 9);
    assert_eq!(ImGuiWindowFlags_MenuBar, 1 << 10);
    assert_eq!(ImGuiWindowFlags_HorizontalScrollbar, 1 << 11);
    assert_eq!(ImGuiWindowFlags_NoFocusOnAppearing, 1 << 12);
    assert_eq!(ImGuiWindowFlags_NoBringToFrontOnFocus, 1 << 13);
    assert_eq!(ImGuiWindowFlags_AlwaysVerticalScrollbar, 1 << 14);
    assert_eq!(ImGuiWindowFlags_AlwaysHorizontalScrollbar, 1 << 15);
    assert_eq!(ImGuiWindowFlags_AlwaysUseWindowPadding, 1 << 16);
    assert_eq!(ImGuiWindowFlags_ChildWindow, 1 << 20);
    assert_eq!(ImGuiWindowFlags_ChildWindowAutoFitX, 1 << 21);
    assert_eq!(ImGuiWindowFlags_ChildWindowAutoFitY, 1 << 22);
    assert_eq!(ImGuiWindowFlags_ComboBox, 1 << 23);
    assert_eq!(ImGuiWindowFlags_Tooltip, 1 << 24);
    assert_eq!(ImGuiWindowFlags_Popup, 1 << 25);
    assert_eq!(ImGuiWindowFlags_Modal, 1 << 26);
    assert_eq!(ImGuiWindowFlags_ChildMenu, 1 << 27);
    assert_eq!(ImGuiWindowFlags_All, 0x0FF1_FFFF);
}

#[test]
fn set_cond_bit_positions() {
    assert_eq!(ImGuiSetCond_Always, 1 << 0);
    assert_eq!(ImGuiSetCond_Once, 1 << 1);
    assert_eq!(ImGuiSetCond_FirstUseEver, 1 << 2);
    assert_eq!(ImGuiSetCond_Appearing, 1 << 3);
    assert_eq!(ImGuiSetCond_All, 0xF);
}

#[test]
fn input_text_flag_bit_positions() {
    assert_eq!(ImGuiInputTextFlags_CharsDecimal, 1 << 0);
    assert_eq!(ImGuiInputTextFlags_CharsHexadecimal, 1 << 1);
    assert_eq!(ImGuiInputTextFlags_CharsUppercase, 1 << 2);
    assert_eq!(ImGuiInputTextFlags_CharsNoBlank, 1 << 3);
    assert_eq!(ImGuiInputTextFlags_AutoSelectAll, 1 << 4);
    assert_eq!(ImGuiInputTextFlags_EnterReturnsTrue, 1 << 5);
    assert_eq!(ImGuiInputTextFlags_CallbackCompletion, 1 << 6);
    assert_eq!(ImGuiInputTextFlags_CallbackHistory, 1 << 7);
    assert_eq!(ImGuiInputTextFlags_CallbackAlways, 1 << 8);
    assert_eq!(ImGuiInputTextFlags_CallbackCharFilter, 1 << 9);
    assert_eq!(ImGuiInputTextFlags_AllowTabInput, 1 << 10);
    assert_eq!(ImGuiInputTextFlags_CtrlEnterForNewLine, 1 << 11);
    assert_eq!(ImGuiInputTextFlags_NoHorizontalScroll, 1 << 12);
    assert_eq!(ImGuiInputTextFlags_AlwaysInsertMode, 1 << 13);
    assert_eq!(ImGuiInputTextFlags_ReadOnly, 1 << 14);
    assert_eq!(ImGuiInputTextFlags_Password, 1 << 15);
    assert_eq!(ImGuiInputTextFlags_Multiline, 1 << 20);
    assert_eq!(ImGuiInputTextFlags_All, 0x10_FFFF);
}

#[test]
fn selectable_flag_bit_positions() {
    assert_eq!(ImGuiSelectableFlags_DontClosePopups, 1 << 0);
    assert_eq!(ImGuiSelectableFlags_SpanAllColumns, 1 << 1);
    assert_eq!(ImGuiSelectableFlags_AllowDoubleClick, 1 << 2);
    assert_eq!(ImGuiSelectableFlags_All, 7);
}

#[test]
fn tree_node_flag_bit_positions() {
    assert_eq!(ImGuiTreeNodeFlags_Selected, 1 << 0);
    assert_eq!(ImGuiTreeNodeFlags_Framed, 1 << 1);
    assert_eq!(ImGuiTreeNodeFlags_AllowOverlapMode, 1 << 2);
    assert_eq!(ImGuiTreeNodeFlags_NoTreePushOnOpen, 1 << 3);
    assert_eq!(ImGuiTreeNodeFlags_NoAutoOpenOnLog, 1 << 4);
    assert_eq!(ImGuiTreeNodeFlags_DefaultOpen, 1 << 5);
    assert_eq!(ImGuiTreeNodeFlags_OpenOnDoubleClick, 1 << 6);
    assert_eq!(ImGuiTreeNodeFlags_OpenOnArrow, 1 << 7);
    assert_eq!(ImGuiTreeNodeFlags_Leaf, 1 << 8);
    assert_eq!(ImGuiTreeNodeFlags_Bullet, 1 << 9);
    assert_eq!(
        ImGuiTreeNodeFlags_CollapsingHeader,
        ImGuiTreeNodeFlags_Framed | ImGuiTreeNodeFlags_NoAutoOpenOnLog
    );
    assert_eq!(ImGuiTreeNodeFlags_All, 0x3FF);
}

fn window(bits: i32) -> ImGuiWindowFlags {
    ImGuiWindowFlags::from_bits_truncate(bits)
}

#[test]
fn empty_set_has_no_bits() {
    assert_eq!(ImGuiWindowFlags::empty().bits(), 0);
    assert!(ImGuiWindowFlags::empty().is_empty());
    assert_eq!(ImGuiAlign::empty().bits(), 0);
    assert_eq!(ImGuiSetCond::empty().bits(), 0);
    assert!(ImGuiSetCond::empty().is_empty());
    assert_eq!(ImGuiInputTextFlags::empty().bits(), 0);
    assert_eq!(ImGuiSelectableFlags::empty().bits(), 0);
    assert_eq!(ImGuiTreeNodeFlags::empty().bits(), 0);
}

#[test]
fn from_bits_accepts_defined_bits_only() {
    assert_eq!(ImGuiWindowFlags::from_bits(0).map(|f| f.bits()), Some(0));
    assert_eq!(ImGuiWindowFlags::from_bits(0x401).map(|f| f.bits()), Some(0x401));
    assert_eq!(
        ImGuiWindowFlags::from_bits(ImGuiWindowFlags_All).map(|f| f.bits()),
        Some(ImGuiWindowFlags_All)
    );
    assert!(ImGuiWindowFlags::from_bits(1 << 17).is_none());
    assert!(ImGuiWindowFlags::from_bits(1 << 28).is_none());
    assert!(ImGuiWindowFlags::from_bits(-1).is_none());
    assert!(ImGuiWindowFlags::from_bits(i32::MIN).is_none());
    assert!(ImGuiSetCond::from_bits(16).is_none());
    assert_eq!(ImGuiSetCond::from_bits(15).map(|f| f.bits()), Some(15));
    assert!(ImGuiAlign::from_bits(32).is_none());
    assert_eq!(ImGuiAlign::from_bits(ImGuiAlign_Default).map(|f| f.bits()), Some(9));
    assert!(ImGuiInputTextFlags::from_bits(1 << 16).is_none());
    assert_eq!(ImGuiInputTextFlags::from_bits(1 << 20).map(|f| f.bits()), Some(1 << 20));
    assert!(ImGuiSelectableFlags::from_bits(8).is_none());
    assert!(ImGuiTreeNodeFlags::from_bits(1 << 10).is_none());
    assert_eq!(
        ImGuiTreeNodeFlags::from_bits(ImGuiTreeNodeFlags_CollapsingHeader).map(|f| f.bits()),
        Some(18)
    );
}

#[test]
fn from_bits_truncate_drops_undefined_bits() {
    assert_eq!(ImGuiWindowFlags::from_bits_truncate(-1).bits(), ImGuiWindowFlags_All);
    assert_eq!(ImGuiWindowFlags::from_bits_truncate((1 << 17) | 5).bits(), 5);
    assert_eq!(ImGuiSetCond::from_bits_truncate(0x1F).bits(), 0xF);
    assert_eq!(ImGuiInputTextFlags::from_bits_truncate(-1).bits(), ImGuiInputTextFlags_All);
    assert_eq!(ImGuiAlign::from_bits_truncate(33).bits(), 1);
    assert_eq!(ImGuiSelectableFlags::from_bits_truncate(15).bits(), 7);
    assert_eq!(ImGuiTreeNodeFlags::from_bits_truncate(0x7FF).bits(), 0x3FF);
}

#[test]
fn with_switches_exactly_the_mask() {
    let base = window(ImGuiWindowFlags_NoMove | ImGuiWindowFlags_MenuBar);
    let on = base.with(window(ImGuiWindowFlags_NoResize), true);
    assert_eq!(on.bits(), ImGuiWindowFlags_NoMove | ImGuiWindowFlags_MenuBar | ImGuiWindowFlags_NoResize);
    let off = on.with(window(ImGuiWindowFlags_NoMove), false);
    assert_eq!(off.bits(), ImGuiWindowFlags_MenuBar | ImGuiWindowFlags_NoResize);
    let same = off.with(window(ImGuiWindowFlags_NoMove), false);
    assert_eq!(same, off);
    let again = on.with(window(ImGuiWindowFlags_NoResize), true);
    assert_eq!(again, on);
}

#[test]
fn with_takes_a_mask_of_several_flags() {
    let mask = window(ImGuiWindowFlags_NoMove | ImGuiWindowFlags_NoResize);
    let all_on = ImGuiWindowFlags::empty().with(mask, true);
    assert_eq!(all_on.bits(), 6);
    let partly = window(ImGuiWindowFlags_NoMove | ImGuiWindowFlags_NoTitleBar).with(mask, false);
    assert_eq!(partly.bits(), ImGuiWindowFlags_NoTitleBar);
}

#[test]
fn set_agrees_with_with() {
    let mut flags = ImGuiInputTextFlags::empty();
    let mask = ImGuiInputTextFlags::from_bits_truncate(ImGuiInputTextFlags_Password);
    flags.set(mask, true);
    assert_eq!(flags, ImGuiInputTextFlags::empty().with(mask, true));
    assert_eq!(flags.bits(), 1 << 15);
    flags.set(ImGuiInputTextFlags::from_bits_truncate(ImGuiInputTextFlags_ReadOnly), true);
    assert_eq!(flags.bits(), (1 << 15) | (1 << 14));
    flags.set(mask, false);
    assert_eq!(flags.bits(), 1 << 14);
    let mut tree = ImGuiTreeNodeFlags::from_bits_truncate(ImGuiTreeNodeFlags_CollapsingHeader);
    tree.set(ImGuiTreeNodeFlags::from_bits_truncate(ImGuiTreeNodeFlags_Framed), false);
    assert_eq!(tree.bits(), ImGuiTreeNodeFlags_NoAutoOpenOnLog);
    tree.set(ImGuiTreeNodeFlags::from_bits_truncate(ImGuiTreeNodeFlags_Leaf), true);
    assert_eq!(tree.bits(), ImGuiTreeNodeFlags_NoAutoOpenOnLog | ImGuiTreeNodeFlags_Leaf);
    let mut win = ImGuiWindowFlags::empty();
    win.set(window(ImGuiWindowFlags_Modal), true);
    assert_eq!(win.bits(), 1 << 26);
}

#[test]
fn tree_with_switches_exactly_the_mask() {
    let header = ImGuiTreeNodeFlags::from_bits_truncate(ImGuiTreeNodeFlags_CollapsingHeader);
    let open = header.with(ImGuiTreeNodeFlags::from_bits_truncate(ImGuiTreeNodeFlags_DefaultOpen), true);
    assert_eq!(open.bits(), 18 | 32);
    assert_eq!(open.with(header, false).bits(), 32);
}

#[test]
fn contains_wants_every_flag_of_the_other() {
    let flags = window(ImGuiWindowFlags_NoMove | ImGuiWindowFlags_NoResize);
    assert!(flags.contains(window(ImGuiWindowFlags_NoMove)));
    assert!(flags.contains(window(ImGuiWindowFlags_NoMove | ImGuiWindowFlags_NoResize)));
    assert!(!flags.contains(window(ImGuiWindowFlags_NoMove | ImGuiWindowFlags_MenuBar)));
    assert!(!flags.contains(window(ImGuiWindowFlags_MenuBar)));
    assert!(flags.contains(ImGuiWindowFlags::empty()));
}

#[test]
fn union_and_difference() {
    let a = ImGuiSetCond::from_bits_truncate(ImGuiSetCond_Always | ImGuiSetCond_Once);
    let b = ImGuiSetCond::from_bits_truncate(ImGuiSetCond_Once | ImGuiSetCond_Appearing);
    assert_eq!(a.union(b).bits(), 1 | 2 | 8);
    assert_eq!(a.difference(b).bits(), 1);
    assert_eq!(b.difference(a).bits(), 8);
    assert!(a.difference(a).is_empty());
    assert!(!a.is_empty());
    let s = ImGuiSelectableFlags::from_bits_truncate(ImGuiSelectableFlags_SpanAllColumns);
    assert_eq!(s.union(ImGuiSelectableFlags::empty()), s);
    let al = ImGuiAlign::from_bits_truncate(ImGuiAlign_Left);
    assert_eq!(al.union(ImGuiAlign::from_bits_truncate(ImGuiAlign_Top)).bits(), ImGuiAlign_Default);
}

#[test]
fn operators_agree_with_union_and_difference() {
    let a = window(ImGuiWindowFlags_NoMove | ImGuiWindowFlags_MenuBar);
    let b = window(ImGuiWindowFlags_MenuBar | ImGuiWindowFlags_Popup);
    assert_eq!(
        (a | b).bits(),
        ImGuiWindowFlags_NoMove | ImGuiWindowFlags_MenuBar | ImGuiWindowFlags_Popup
    );
    assert_eq!((a - b).bits(), ImGuiWindowFlags_NoMove);
    assert_eq!(a | b, a.union(b));
    assert_eq!(a - b, a.difference(b));
    let c = ImGuiSetCond::from_bits_truncate(ImGuiSetCond_Once);
    let d = ImGuiSetCond::from_bits_truncate(ImGuiSetCond_Always);
    assert_eq!((c | d).bits(), 3);
    assert_eq!(((c | d) - c).bits(), 1);
    let e = ImGuiInputTextFlags::from_bits_truncate(ImGuiInputTextFlags_Multiline);
    assert_eq!((e | ImGuiInputTextFlags::empty()).bits(), 1 << 20);
    assert!((e - e).is_empty());
    let f = ImGuiTreeNodeFlags::from_bits_truncate(ImGuiTreeNodeFlags_Bullet);
    let g = ImGuiTreeNodeFlags::from_bits_truncate(ImGuiTreeNodeFlags_Selected);
    assert_eq!((f | g).bits(), 0x201);
    assert_eq!(((f | g) - f).bits(), 1);
    let h = ImGuiSelectableFlags::from_bits_truncate(ImGuiSelectableFlags_DontClosePopups);
    let i = ImGuiSelectableFlags::from_bits_truncate(ImGuiSelectableFlags_AllowDoubleClick);
    assert_eq!((h | i).bits(), 5);
    assert_eq!((h - i).bits(), 1);
    let j = ImGuiAlign::from_bits_truncate(ImGuiAlign_Center);
    let k = ImGuiAlign::from_bits_truncate(ImGuiAlign_VCenter | ImGuiAlign_Right);
    assert_eq!((j | k).bits(), 2 | 16 | 4);
    assert_eq!((k - j).bits(), 16 | 4);
}
