use vstd::prelude::*;

use crate::band::WM_USER;
use crate::keystate::{spec_decode_key_state, KeyState};
use crate::raw::{
    addr_of_word, high16, low16, low32, pos_of_word, spec_addr_of_word, spec_as_i16,
    spec_high16, spec_low16, spec_low32, spec_pos_of_word, spec_word_bits, word_bits, MousePos,
    RawEvent,
};

verus! {
// The system-band message identifiers the decoder knows, by numeric value.
pub const WM_NULL: u32 = 0x0000;
pub const WM_CREATE: u32 = 0x0001;
pub const WM_DESTROY: u32 = 0x0002;
pub const WM_MOVE: u32 = 0x0003;
pub const WM_SIZE: u32 = 0x0005;
pub const WM_ACTIVATE: u32 = 0x0006;
pub const WM_SETFOCUS: u32 = 0x0007;
pub const WM_KILLFOCUS: u32 = 0x0008;
pub const WM_ENABLE: u32 = 0x000A;
pub const WM_SETREDRAW: u32 = 0x000B;
pub const WM_SETTEXT: u32 = 0x000C;
pub const WM_GETTEXT: u32 = 0x000D;
pub const WM_GETTEXTLENGTH: u32 = 0x000E;
pub const WM_PAINT: u32 = 0x000F;
pub const WM_CLOSE: u32 = 0x0010;
pub const WM_QUERYENDSESSION: u32 = 0x0011;
pub const WM_QUIT: u32 = 0x0012;
pub const WM_QUERYOPEN: u32 = 0x0013;
pub const WM_ERASEBKGND: u32 = 0x0014;
pub const WM_SYSCOLORCHANGE: u32 = 0x0015;
pub const WM_ENDSESSION: u32 = 0x0016;
pub const WM_SHOWWINDOW: u32 = 0x0018;
pub const WM_SETTINGCHANGE: u32 = 0x001A;
pub const WM_DEVMODECHANGE: u32 = 0x001B;
pub const WM_ACTIVATEAPP: u32 = 0x001C;
pub const WM_FONTCHANGE: u32 = 0x001D;
pub const WM_TIMECHANGE: u32 = 0x001E;
pub const WM_CANCELMODE: u32 = 0x001F;
pub const WM_SETCURSOR: u32 = 0x0020;
pub const WM_MOUSEACTIVATE: u32 = 0x0021;
pub const WM_CHILDACTIVATE: u32 = 0x0022;
pub const WM_QUEUESYNC: u32 = 0x0023;
pub const WM_GETMINMAXINFO: u32 = 0x0024;
pub const WM_PAINTICON: u32 = 0x0026;
pub const WM_ICONERASEBKGND: u32 = 0x0027;
pub const WM_NEXTDLGCTL: u32 = 0x0028;
pub const WM_SPOOLERSTATUS: u32 = 0x002A;
pub const WM_DRAWITEM: u32 = 0x002B;
pub const WM_MEASUREITEM: u32 = 0x002C;
pub const WM_DELETEITEM: u32 = 0x002D;
pub const WM_VKEYTOITEM: u32 = 0x002E;
pub const WM_CHARTOITEM: u32 = 0x002F;
pub const WM_SETFONT: u32 = 0x0030;
pub const WM_GETFONT: u32 = 0x0031;
pub const WM_SETHOTKEY: u32 = 0x0032;
pub const WM_GETHOTKEY: u32 = 0x0033;
pub const WM_QUERYDRAGICON: u32 = 0x0037;
pub const WM_COMPAREITEM: u32 = 0x0039;
pub const WM_GETOBJECT: u32 = 0x003D;
pub const WM_COMPACTING: u32 = 0x0041;
pub const WM_COMMNOTIFY: u32 = 0x0044;
pub const WM_WINDOWPOSCHANGING: u32 = 0x0046;
pub const WM_WINDOWPOSCHANGED: u32 = 0x0047;
pub const WM_POWER: u32 = 0x0048;
pub const WM_COPYDATA: u32 = 0x004A;
pub const WM_CANCELJOURNAL: u32 = 0x004B;
pub const WM_NOTIFY: u32 = 0x004E;
pub const WM_INPUTLANGCHANGEREQUEST: u32 = 0x0050;
pub const WM_INPUTLANGCHANGE: u32 = 0x0051;
pub const WM_TCARD: u32 = 0x0052;
pub const WM_HELP: u32 = 0x0053;
pub const WM_USERCHANGED: u32 = 0x0054;
pub const WM_NOTIFYFORMAT: u32 = 0x0055;
pub const WM_CONTEXTMENU: u32 = 0x007B;
pub const WM_STYLECHANGING: u32 = 0x007C;
pub const WM_STYLECHANGED: u32 = 0x007D;
pub const WM_DISPLAYCHANGE: u32 = 0x007E;
pub const WM_GETICON: u32 = 0x007F;
pub const WM_SETICON: u32 = 0x0080;
pub const WM_NCCREATE: u32 = 0x0081;
pub const WM_NCDESTROY: u32 = 0x0082;
pub const WM_NCCALCSIZE: u32 = 0x0083;
pub const WM_NCHITTEST: u32 = 0x0084;
pub const WM_NCPAINT: u32 = 0x0085;
pub const WM_NCACTIVATE: u32 = 0x0086;
pub const WM_GETDLGCODE: u32 = 0x0087;
pub const WM_SYNCPAINT: u32 = 0x0088;
pub const WM_NCMOUSEMOVE: u32 = 0x00A0;
pub const WM_NCLBUTTONDOWN: u32 = 0x00A1;
pub const WM_NCLBUTTONUP: u32 = 0x00A2;
pub const WM_NCLBUTTONDBLCLK: u32 = 0x00A3;
pub const WM_NCRBUTTONDOWN: u32 = 0x00A4;
pub const WM_NCRBUTTONUP: u32 = 0x00A5;
pub const WM_NCRBUTTONDBLCLK: u32 = 0x00A6;
pub const WM_NCMBUTTONDOWN: u32 = 0x00A7;
pub const WM_NCMBUTTONUP: u32 = 0x00A8;
pub const WM_NCMBUTTONDBLCLK: u32 = 0x00A9;
pub const WM_NCXBUTTONDOWN: u32 = 0x00AB;
pub const WM_NCXBUTTONUP: u32 = 0x00AC;
pub const WM_NCXBUTTONDBLCLK: u32 = 0x00AD;
pub const WM_NCUAHDRAWCAPTION: u32 = 0x00AE;
pub const WM_NCUAHDRAWFRAME: u32 = 0x00AF;
pub const WM_INPUT_DEVICE_CHANGE: u32 = 0x00FE;
pub const WM_INPUT: u32 = 0x00FF;
pub const WM_KEYDOWN: u32 = 0x0100;
pub const WM_KEYUP: u32 = 0x0101;
pub const WM_CHAR: u32 = 0x0102;
pub const WM_DEADCHAR: u32 = 0x0103;
pub const WM_SYSKEYDOWN: u32 = 0x0104;
pub const WM_SYSKEYUP: u32 = 0x0105;
pub const WM_SYSCHAR: u32 = 0x0106;
pub const WM_SYSDEADCHAR: u32 = 0x0107;
pub const WM_UNICHAR: u32 = 0x0109;
pub const WM_IME_STARTCOMPOSITION: u32 = 0x010D;
pub const WM_IME_ENDCOMPOSITION: u32 = 0x010E;
pub const WM_IME_COMPOSITION: u32 = 0x010F;
pub const WM_INITDIALOG: u32 = 0x0110;
pub const WM_COMMAND: u32 = 0x0111;
pub const WM_SYSCOMMAND: u32 = 0x0112;
pub const WM_TIMER: u32 = 0x0113;
pub const WM_HSCROLL: u32 = 0x0114;
pub const WM_VSCROLL: u32 = 0x0115;
pub const WM_INITMENU: u32 = 0x0116;
pub const WM_INITMENUPOPUP: u32 = 0x0117;
pub const WM_GESTURE: u32 = 0x0119;
pub const WM_GESTURENOTIFY: u32 = 0x011A;
pub const WM_MENUSELECT: u32 = 0x011F;
pub const WM_MENUCHAR: u32 = 0x0120;
pub const WM_ENTERIDLE: u32 = 0x0121;
pub const WM_MENURBUTTONUP: u32 = 0x0122;
pub const WM_MENUDRAG: u32 = 0x0123;
pub const WM_MENUGETOBJECT: u32 = 0x0124;
pub const WM_UNINITMENUPOPUP: u32 = 0x0125;
pub const WM_MENUCOMMAND: u32 = 0x0126;
pub const WM_CHANGEUISTATE: u32 = 0x0127;
pub const WM_UPDATEUISTATE: u32 = 0x0128;
pub const WM_QUERYUISTATE: u32 = 0x0129;
pub const WM_CTLCOLORMSGBOX: u32 = 0x0132;
pub const WM_CTLCOLOREDIT: u32 = 0x0133;
pub const WM_CTLCOLORLISTBOX: u32 = 0x0134;
pub const WM_CTLCOLORBTN: u32 = 0x0135;
pub const WM_CTLCOLORDLG: u32 = 0x0136;
pub const WM_CTLCOLORSCROLLBAR: u32 = 0x0137;
pub const WM_CTLCOLORSTATIC: u32 = 0x0138;
pub const WM_MOUSEMOVE: u32 = 0x0200;
pub const WM_LBUTTONDOWN: u32 = 0x0201;
pub const WM_LBUTTONUP: u32 = 0x0202;
pub const WM_LBUTTONDBLCLK: u32 = 0x0203;
pub const WM_RBUTTONDOWN: u32 = 0x0204;
pub const WM_RBUTTONUP: u32 = 0x0205;
pub const WM_RBUTTONDBLCLK: u32 = 0x0206;
pub const WM_MBUTTONDOWN: u32 = 0x0207;
pub const WM_MBUTTONUP: u32 = 0x0208;
pub const WM_MBUTTONDBLCLK: u32 = 0x0209;
pub const WM_MOUSEWHEEL: u32 = 0x020A;
pub const WM_XBUTTONDOWN: u32 = 0x020B;
pub const WM_XBUTTONUP: u32 = 0x020C;
pub const WM_XBUTTONDBLCLK: u32 = 0x020D;
pub const WM_MOUSEHWHEEL: u32 = 0x020E;
pub const WM_PARENTNOTIFY: u32 = 0x0210;
pub const WM_ENTERMENULOOP: u32 = 0x0211;
pub const WM_EXITMENULOOP: u32 = 0x0212;
pub const WM_NEXTMENU: u32 = 0x0213;
pub const WM_SIZING: u32 = 0x0214;
pub const WM_CAPTURECHANGED: u32 = 0x0215;
pub const WM_MOVING: u32 = 0x0216;
pub const WM_POWERBROADCAST: u32 = 0x0218;
pub const WM_DEVICECHANGE: u32 = 0x0219;
pub const WM_MDICREATE: u32 = 0x0220;
pub const WM_MDIDESTROY: u32 = 0x0221;
pub const WM_MDIACTIVATE: u32 = 0x0222;
pub const WM_MDIRESTORE: u32 = 0x0223;
pub const WM_MDINEXT: u32 = 0x0224;
pub const WM_MDIMAXIMIZE: u32 = 0x0225;
pub const WM_MDITILE: u32 = 0x0226;
pub const WM_MDICASCADE: u32 = 0x0227;
pub const WM_MDIICONARRANGE: u32 = 0x0228;
pub const WM_MDIGETACTIVE: u32 = 0x0229;
pub const WM_MDISETMENU: u32 = 0x0230;
pub const WM_ENTERSIZEMOVE: u32 = 0x0231;
pub const WM_EXITSIZEMOVE: u32 = 0x0232;
pub const WM_DROPFILES: u32 = 0x0233;
pub const WM_MDIREFRESHMENU: u32 = 0x0234;
pub const WM_POINTERDEVICECHANGE: u32 = 0x0238;
pub const WM_POINTERDEVICEINRANGE: u32 = 0x0239;
pub const WM_POINTERDEVICEOUTOFRANGE: u32 = 0x023A;
pub const WM_TOUCH: u32 = 0x0240;
pub const WM_NCPOINTERUPDATE: u32 = 0x0241;
pub const WM_NCPOINTERDOWN: u32 = 0x0242;
pub const WM_NCPOINTERUP: u32 = 0x0243;
pub const WM_POINTERUPDATE: u32 = 0x0245;
pub const WM_POINTERDOWN: u32 = 0x0246;
pub const WM_POINTERUP: u32 = 0x0247;
pub const WM_POINTERENTER: u32 = 0x0249;
pub const WM_POINTERLEAVE: u32 = 0x024A;
pub const WM_POINTERACTIVATE: u32 = 0x024B;
pub const WM_POINTERCAPTURECHANGED: u32 = 0x024C;
pub const WM_TOUCHHITTESTING: u32 = 0x024D;
pub const WM_POINTERWHEEL: u32 = 0x024E;
pub const WM_POINTERHWHEEL: u32 = 0x024F;
pub const WM_POINTERROUTEDTO: u32 = 0x0251;
pub const WM_POINTERROUTEDAWAY: u32 = 0x0252;
pub const WM_POINTERROUTEDRELEASED: u32 = 0x0253;
pub const WM_IME_SETCONTEXT: u32 = 0x0281;
pub const WM_IME_NOTIFY: u32 = 0x0282;
pub const WM_IME_CONTROL: u32 = 0x0283;
pub const WM_IME_COMPOSITIONFULL: u32 = 0x0284;
pub const WM_IME_SELECT: u32 = 0x0285;
pub const WM_IME_CHAR: u32 = 0x0286;
pub const WM_IME_REQUEST: u32 = 0x0288;
pub const WM_IME_KEYDOWN: u32 = 0x0290;
pub const WM_IME_KEYUP: u32 = 0x0291;
pub const WM_NCMOUSEHOVER: u32 = 0x02A0;
pub const WM_MOUSEHOVER: u32 = 0x02A1;
pub const WM_NCMOUSELEAVE: u32 = 0x02A2;
pub const WM_MOUSELEAVE: u32 = 0x02A3;
pub const WM_WTSSESSION_CHANGE: u32 = 0x02B1;
pub const WM_TABLET_FIRST: u32 = 0x02C0;
pub const WM_TABLET_LAST: u32 = 0x02DF;
pub const WM_DPICHANGED: u32 = 0x02E0;
pub const WM_DPICHANGED_BEFOREPARENT: u32 = 0x02E2;
pub const WM_DPICHANGED_AFTERPARENT: u32 = 0x02E3;
pub const WM_GETDPISCALEDSIZE: u32 = 0x02E4;
pub const WM_CUT: u32 = 0x0300;
pub const WM_COPY: u32 = 0x0301;
pub const WM_PASTE: u32 = 0x0302;
pub const WM_CLEAR: u32 = 0x0303;
pub const WM_UNDO: u32 = 0x0304;
pub const WM_RENDERFORMAT: u32 = 0x0305;
pub const WM_RENDERALLFORMATS: u32 = 0x0306;
pub const WM_DESTROYCLIPBOARD: u32 = 0x0307;
pub const WM_DRAWCLIPBOARD: u32 = 0x0308;
pub const WM_PAINTCLIPBOARD: u32 = 0x0309;
pub const WM_VSCROLLCLIPBOARD: u32 = 0x030A;
pub const WM_SIZECLIPBOARD: u32 = 0x030B;
pub const WM_ASKCBFORMATNAME: u32 = 0x030C;
pub const WM_CHANGECBCHAIN: u32 = 0x030D;
pub const WM_HSCROLLCLIPBOARD: u32 = 0x030E;
pub const WM_QUERYNEWPALETTE: u32 = 0x030F;
pub const WM_PALETTEISCHANGING: u32 = 0x0310;
pub const WM_PALETTECHANGED: u32 = 0x0311;
pub const WM_HOTKEY: u32 = 0x0312;
pub const WM_PRINT: u32 = 0x0317;
pub const WM_PRINTCLIENT: u32 = 0x0318;
pub const WM_APPCOMMAND: u32 = 0x0319;
pub const WM_THEMECHANGED: u32 = 0x031A;
pub const WM_CLIPBOARDUPDATE: u32 = 0x031D;
pub const WM_DWMCOMPOSITIONCHANGED: u32 = 0x031E;
pub const WM_DWMNCRENDERINGCHANGED: u32 = 0x031F;
pub const WM_DWMCOLORIZATIONCOLORCHANGED: u32 = 0x0320;
pub const WM_DWMWINDOWMAXIMIZEDCHANGE: u32 = 0x0321;
pub const WM_DWMSENDICONICTHUMBNAIL: u32 = 0x0323;
pub const WM_DWMSENDICONICLIVEPREVIEWBITMAP: u32 = 0x0326;
pub const WM_GETTITLEBARINFOEX: u32 = 0x033F;
pub const WM_HANDHELDFIRST: u32 = 0x0358;
pub const WM_HANDHELDLAST: u32 = 0x035F;
pub const WM_AFXFIRST: u32 = 0x0360;
pub const WM_AFXLAST: u32 = 0x037F;
pub const WM_PENWINFIRST: u32 = 0x0380;
pub const WM_PENWINLAST: u32 = 0x038F;

/// Window-activation state carried in the low half-word of `WM_ACTIVATE`'s
/// first parameter.
#[derive(Debug, Copy, Clone, PartialEq, Eq)]
pub enum WindowActivation {
    Active,
    ClickActive,
    Inactive,
}

/// The activation state a half-word names, if any: 0 inactive, 1 active,
/// 2 click-active.
pub open spec fn spec_window_activation(v: u16) -> Option<WindowActivation> {
    if v == 0 {
        Some(WindowActivation::Inactive)
    } else if v == 1 {
        Some(WindowActivation::Active)
    } else if v == 2 {
        Some(WindowActivation::ClickActive)
    } else {
        None
    }
}

pub fn window_activation_from_word(v: u16) -> (r: Option<WindowActivation>)
    ensures
        r == spec_window_activation(v),
{
    if v == 0 {
        Some(WindowActivation::Inactive)
    } else if v == 1 {
        Some(WindowActivation::Active)
    } else if v == 2 {
        Some(WindowActivation::ClickActive)
    } else {
        None
    }
}

/// Resize kind carried in `WM_SIZE`'s first parameter.
#[derive(Debug, Copy, Clone, PartialEq, Eq)]
pub enum WindowResizing {
    MaxHide,
    Maximized,
    MaxShow,
    Minimized,
    Restored,
}

/// The resize kind a word names, if any: 0 restored, 1 minimized,
/// 2 maximized, 3 max-show, 4 max-hide.
pub open spec fn spec_window_resizing(w: usize) -> Option<WindowResizing> {
    if w == 0 {
        Some(WindowResizing::Restored)
    } else if w == 1 {
        Some(WindowResizing::Minimized)
    } else if w == 2 {
        Some(WindowResizing::Maximized)
    } else if w == 3 {
        Some(WindowResizing::MaxShow)
    } else if w == 4 {
        Some(WindowResizing::MaxHide)
    } else {
        None
    }
}

pub fn window_resizing_from_word(w: usize) -> (r: Option<WindowResizing>)
    ensures
        r == spec_window_resizing(w),
{
    if w == 0 {
        Some(WindowResizing::Restored)
    } else if w == 1 {
        Some(WindowResizing::Minimized)
    } else if w == 2 {
        Some(WindowResizing::Maximized)
    } else if w == 3 {
        Some(WindowResizing::MaxShow)
    } else if w == 4 {
        Some(WindowResizing::MaxHide)
    } else {
        None
    }
}

/// Icon kind carried in `WM_GETICON` and `WM_SETICON`'s first parameter.
#[derive(Debug, Copy, Clone, PartialEq, Eq)]
pub enum IconSize {
    Small,
    Big,
    Small2,
}

/// The icon kind a word names, if any: 0 small, 1 big, 2 small-alternate.
pub open spec fn spec_icon_size(w: usize) -> Option<IconSize> {
    if w == 0 {
        Some(IconSize::Small)
    } else if w == 1 {
        Some(IconSize::Big)
    } else if w == 2 {
        Some(IconSize::Small2)
    } else {
        None
    }
}

pub fn icon_size_from_word(w: usize) -> (r: Option<IconSize>)
    ensures
        r == spec_icon_size(w),
{
    if w == 0 {
        Some(IconSize::Small)
    } else if w == 1 {
        Some(IconSize::Big)
    } else if w == 2 {
        Some(IconSize::Small2)
    } else {
        None
    }
}

/// Power-broadcast kind carried in `WM_POWERBROADCAST`'s first parameter.
#[derive(Debug, Copy, Clone, PartialEq, Eq)]
pub enum PowerEvent {
    ApmPowerStatusChange,
    ApmResumeAutomatic,
    ApmResumeSuspend,
    ApmSuspend,
    PowerSettingsChange,
}

/// The power-broadcast kind a word names, if any: 4 suspend, 7 resume from
/// suspend, 10 power-status change, 18 automatic resume, 0x8013 power-setting
/// change.
pub open spec fn spec_power_event(w: usize) -> Option<PowerEvent> {
    if w == 0x4 {
        Some(PowerEvent::ApmSuspend)
    } else if w == 0x7 {
        Some(PowerEvent::ApmResumeSuspend)
    } else if w == 0xA {
        Some(PowerEvent::ApmPowerStatusChange)
    } else if w == 0x12 {
        Some(PowerEvent::ApmResumeAutomatic)
    } else if w == 0x8013 {
        Some(PowerEvent::PowerSettingsChange)
    } else {
        None
    }
}

pub fn power_event_from_word(w: usize) -> (r: Option<PowerEvent>)
    ensures
        r == spec_power_event(w),
{
    if w == 0x4 {
        Some(PowerEvent::ApmSuspend)
    } else if w == 0x7 {
        Some(PowerEvent::ApmResumeSuspend)
    } else if w == 0xA {
        Some(PowerEvent::ApmPowerStatusChange)
    } else if w == 0x12 {
        Some(PowerEvent::ApmResumeAutomatic)
    } else if w == 0x8013 {
        Some(PowerEvent::PowerSettingsChange)
    } else {
        None
    }
}

/// Style target carried in `WM_STYLECHANGING` and `WM_STYLECHANGED`'s first
/// parameter: the signed values -16 (style) and -20 (extended style), read
/// from the word's two's-complement bit pattern.
#[derive(Debug, Copy, Clone, PartialEq, Eq)]
pub enum GwlStyle {
    ExStyle,
    Style,
}

/// The style target a word names, if any.
pub open spec fn spec_gwl_style(w: usize) -> Option<GwlStyle> {
    if w == usize::MAX - 15 {
        Some(GwlStyle::Style)
    } else if w == usize::MAX - 19 {
        Some(GwlStyle::ExStyle)
    } else {
        None
    }
}

pub fn gwl_style_from_word(w: usize) -> (r: Option<GwlStyle>)
    ensures
        r == spec_gwl_style(w),
{
    if w == usize::MAX - 15 {
        Some(GwlStyle::Style)
    } else if w == usize::MAX - 19 {
        Some(GwlStyle::ExStyle)
    } else {
        None
    }
}

/// Mouse-activation answer to `WM_MOUSEACTIVATE`: an interpretation callers
/// may apply to the raw activation word the message carries.
#[derive(Debug, Copy, Clone, PartialEq, Eq)]
pub enum MouseActivation {
    Activate,
    ActivateAndEat,
    NoActivate,
    NoActivateAndEat,
}

/// The mouse-activation answer a word names, if any: 1 activate, 2 activate
/// and eat, 3 no activate, 4 no activate and eat.
pub open spec fn spec_mouse_activation(v: u32) -> Option<MouseActivation> {
    if v == 1 {
        Some(MouseActivation::Activate)
    } else if v == 2 {
        Some(MouseActivation::ActivateAndEat)
    } else if v == 3 {
        Some(MouseActivation::NoActivate)
    } else if v == 4 {
        Some(MouseActivation::NoActivateAndEat)
    } else {
        None
    }
}

pub fn mouse_activation_from_word(v: u32) -> (r: Option<MouseActivation>)
    ensures
        r == spec_mouse_activation(v),
{
    if v == 1 {
        Some(MouseActivation::Activate)
    } else if v == 2 {
        Some(MouseActivation::ActivateAndEat)
    } else if v == 3 {
        Some(MouseActivation::NoActivate)
    } else if v == 4 {
        Some(MouseActivation::NoActivateAndEat)
    } else {
        None
    }
}

/// Show-window status: an interpretation callers may apply to the raw status
/// word that `WM_SHOWWINDOW` carries.
#[derive(Debug, Copy, Clone, PartialEq, Eq)]
pub enum WindowShown {
    OtherUnZoom,
    OtherZoom,
    ParentClosing,
    ParentOpening,
}

/// The show-window status a word names, if any: 1 parent closing, 2 another
/// window zoomed, 3 parent opening, 4 another window un-zoomed.
pub open spec fn spec_window_shown(v: isize) -> Option<WindowShown> {
    if v == 1 {
        Some(WindowShown::ParentClosing)
    } else if v == 2 {
        Some(WindowShown::OtherZoom)
    } else if v == 3 {
        Some(WindowShown::ParentOpening)
    } else if v == 4 {
        Some(WindowShown::OtherUnZoom)
    } else {
        None
    }
}

pub fn window_shown_from_word(v: isize) -> (r: Option<WindowShown>)
    ensures
        r == spec_window_shown(v),
{
    if v == 1 {
        Some(WindowShown::ParentClosing)
    } else if v == 2 {
        Some(WindowShown::OtherZoom)
    } else if v == 3 {
        Some(WindowShown::ParentOpening)
    } else if v == 4 {
        Some(WindowShown::OtherUnZoom)
    } else {
        None
    }
}

/// The nested choice `WM_NCCALCSIZE` carries: its selector word picks whether
/// the address targets a full resize-negotiation structure or a plain
/// rectangle. The address is opaque and never dereferenced.
#[derive(Debug, Copy, Clone, PartialEq, Eq)]
pub enum NcSizeParams {
    ValidClientArea { data: Option<usize> },
    Rect { data: Option<usize> },
}

/// A decode failure: a recognized tag whose enumerated sub-field holds a
/// value outside its closed set. Carries the raw triple untouched so the
/// caller can choose to ignore or log it.
#[derive(Debug, Copy, Clone, PartialEq, Eq)]
pub enum DecodeError {
    InvalidEnumValue { event: RawEvent },
}

/// A typed system-band message: one tag per known identifier, with the
/// payload the protocol fixes for that identifier reconstructed from the two
/// parameter words. Handle- and pointer-valued fields carry the word as an
/// opaque value, never dereferenced. An identifier absent from the known
/// table decodes to `Unknown` carrying the raw triple unchanged.
#[derive(Debug, Copy, Clone, PartialEq, Eq)]
pub enum WindowMessage {
    Null,
    Create { data: Option<usize> },
    Destroy,
    Move { x: i16, y: i16 },
    Size { resizing: WindowResizing, width: i16, height: i16 },
    Activate { activated: u16, state: WindowActivation, window: usize },
    SetFocus { window: Option<usize> },
    KillFocus,
    Enable,
    SetRedraw,
    SetText,
    GetText,
    GetTextLength,
    Paint,
    Close,
    QueryEndSession,
    Quit,
    QueryOpen,
    EraseBackground { dc: usize },
    SysColorChange,
    EndSession,
    ShowWindow { shown: usize, status: isize },
    SettingChange,
    DevModeChange,
    ActivateApp { activated: usize, thread: isize },
    FontChange,
    TimeChange,
    CancelMode,
    SetCursor { window: usize, hit_test: u16, trigger_message: u16 },
    MouseActivate { top_window: usize, activation: isize },
    ChildActivate,
    QueueSync,
    GetMinMaxInfo { data: Option<usize> },
    PaintIcon,
    IconEraseBackground,
    NextDialogCtl,
    SpoolerStatus,
    DrawItem,
    MeasureItem,
    DeleteItem,
    VKeyToItem,
    CharToItem,
    SetFont,
    GetFont,
    SetHotkey,
    GetHotkey,
    QueryDragIcon,
    CompareItem,
    GetObject,
    Compacting,
    CommNotify,
    WindowPosChanging { data: Option<usize> },
    WindowPosChanged { data: Option<usize> },
    Power,
    CopyData,
    CancelJournal,
    Notify,
    InputLangChangeRequest,
    InputLangChange,
    TCard,
    Help,
    UserChanged,
    NotifyFormat,
    ContextMenu,
    StyleChanging { style: GwlStyle, data: Option<usize> },
    StyleChanged { style: GwlStyle, data: Option<usize> },
    DisplayChange,
    GetIcon { size: IconSize, dpi: isize },
    SetIcon { size: IconSize, icon: usize },
    NcCreate,
    NcDestroy,
    NcCalcSize { params: NcSizeParams },
    NcHitTest { pos: MousePos },
    NcPaint { update_region: usize },
    NcActivate { update_icon: usize, update_region: isize },
    GetDlgCode,
    SyncPaint,
    NcMouseMove { hit_test: usize, pos: MousePos },
    NclButtonDown,
    NclButtonUp,
    NclButtonDblClk,
    NcRButtonDown,
    NcRButtonUp,
    NcRButtonDblClk,
    NcMButtonDown,
    NcMButtonUp,
    NcMButtonDblClk,
    NcXButtonDown,
    NcXButtonUp,
    NcXButtonDblClk,
    NcUahDrawCaption { w: usize, l: isize },
    NcUahDrawFrame { w: usize, l: isize },
    InputDeviceChange,
    Input,
    KeyDown { key_code: usize, info: KeyState },
    KeyUp { key_code: usize, info: KeyState },
    Char,
    DeadChar,
    SysKeyDown { key_code: usize, info: KeyState },
    SysKeyUp { key_code: usize, info: KeyState },
    SysChar,
    SysDeadChar,
    UniChar,
    ImeStartComposition,
    ImeEndComposition,
    ImeComposition,
    InitDialog,
    Command,
    SysCommand,
    TIMER,
    HScroll,
    VScroll,
    InitMenu,
    InitMenuPopup,
    Gesture,
    GestureNotify,
    MenuSelect,
    MenuChar,
    EnterIdle,
    MenuRButtonUp,
    MenuDrag,
    MenuGetObject,
    UninitMenuPopup,
    MenuCommand,
    ChangeUiState,
    UpdateUiState,
    QueryUiState,
    CtlColorMsgBox,
    CtlColorEdit,
    CtlColorListBox,
    CtlColorBtn,
    CtlColorDlg,
    CtlColorScrollbar,
    CtlColorStatic,
    MouseMove { modifiers: usize, pos: MousePos },
    LButtonDown { modifiers: usize, pos: MousePos },
    LButtonUp { modifiers: usize, pos: MousePos },
    LButtonDblClk { modifiers: usize, pos: MousePos },
    RButtonDown { modifiers: usize, pos: MousePos },
    RButtonUp { modifiers: usize, pos: MousePos },
    RButtonDblClk { modifiers: usize, pos: MousePos },
    MButtonDown { modifiers: usize, pos: MousePos },
    MButtonUp { modifiers: usize, pos: MousePos },
    MButtonDblClk { modifiers: usize, pos: MousePos },
    MouseWheel { modifiers: u16, delta: u16, pos: MousePos },
    XButtonDown { modifiers: u16, button: u16, pos: MousePos },
    XButtonUp { modifiers: u16, button: u16, pos: MousePos },
    XButtonDblClk { modifiers: u16, button: u16, pos: MousePos },
    MouseHWheel { modifiers: u16, delta: u16, pos: MousePos },
    ParentNotify,
    EnterMenuLoop,
    ExitMenuLoop,
    NextMenu,
    Sizing,
    CaptureChanged { window: usize },
    Moving,
    PowerBroadcast { event: PowerEvent, data: Option<usize> },
    DeviceChange,
    MdiCreate,
    MdiDestroy,
    MdiActivate,
    MdiRestore,
    MdiNext,
    MdiMaximize,
    MdiTile,
    MdiCascade,
    MdiIconArrange,
    MdiGetActive,
    MdiSetMenu,
    EnterSizeMove,
    ExitSizeMove,
    DropFiles,
    MdiRefreshMenu,
    PointerDeviceChange,
    PointerDeviceInRange,
    PointerDeviceOutOfRange,
    Touch,
    NcPointerUpdate,
    NcPointerDown,
    NcPointerUp,
    PointerUpdate,
    POINTERDOWN,
    POINTERUP,
    POINTERENTER,
    POINTERLEAVE,
    PointerActivate,
    PointerCaptureChanged,
    TouchHitTesting,
    PointerWheel,
    PointerHWheel,
    PointerRoutedTo,
    PointerRoutedAway,
    PointerRoutedReleased,
    ImeSetContext { active: usize, display_options: isize },
    ImeNotify { window: usize, command: isize },
    ImeControl,
    ImeCompositionFull,
    ImeSelect,
    ImeChar,
    ImeRequest,
    ImeKeydown,
    ImeKeyup,
    NcMouseHover,
    MouseHover { modifiers: usize, pos: MousePos },
    NcMouseLeave,
    MouseLeave,
    WtsSessionChange,
    TabletFirst,
    TabletLast,
    DpiChanged,
    DpiChangedBeforeParent,
    DpiChangedAfterParent,
    GetDpiScaledSize,
    Cut,
    Copy,
    Paste,
    Clear,
    Undo,
    RenderFormat,
    RenderAllFormats,
    DestroyClipboard,
    DrawClipboard,
    PaintClipboard,
    VScrollClipboard,
    SizeClipboard,
    AskCbFormatName,
    ChangeCbChain,
    HScrollClipboard,
    QueryNewPalette,
    PaletteIsChanging,
    PaletteChanged,
    Hotkey,
    Print,
    PrintClient,
    AppCommand,
    ThemeChanged,
    ClipboardUpdate,
    DwmCompositionChanged,
    DwmNcRenderingChanged,
    DwmColorizationColorChanged,
    DwmWindowMaximizedChange,
    DwmSendIconIcThumbnail,
    DwmSendIconIcLivePreviewBitmap,
    GetTitleBarInfoEx,
    HandHeldFirst,
    HandHeldLast,
    AfxFirst,
    AfxLast,
    PenWinFirst,
    PenWinLast,
    Unknown(RawEvent),
}

/// The bare tag a known identifier below 0x0200 names, where the message
/// carries no payload.
pub open spec fn spec_unit_message_low(id: u32) -> Option<WindowMessage> {
    if id == WM_NULL {
        Some(WindowMessage::Null)
    } else if id == WM_DESTROY {
        Some(WindowMessage::Destroy)
    } else if id == WM_KILLFOCUS {
        Some(WindowMessage::KillFocus)
    } else if id == WM_ENABLE {
        Some(WindowMessage::Enable)
    } else if id == WM_SETREDRAW {
        Some(WindowMessage::SetRedraw)
    } else if id == WM_SETTEXT {
        Some(WindowMessage::SetText)
    } else if id == WM_GETTEXT {
        Some(WindowMessage::GetText)
    } else if id == WM_GETTEXTLENGTH {
        Some(WindowMessage::GetTextLength)
    } else if id == WM_PAINT {
        Some(WindowMessage::Paint)
    } else if id == WM_CLOSE {
        Some(WindowMessage::Close)
    } else if id == WM_QUERYENDSESSION {
        Some(WindowMessage::QueryEndSession)
    } else if id == WM_QUIT {
        Some(WindowMessage::Quit)
    } else if id == WM_QUERYOPEN {
        Some(WindowMessage::QueryOpen)
    } else if id == WM_SYSCOLORCHANGE {
        Some(WindowMessage::SysColorChange)
    } else if id == WM_ENDSESSION {
        Some(WindowMessage::EndSession)
    } else if id == WM_SETTINGCHANGE {
        Some(WindowMessage::SettingChange)
    } else if id == WM_DEVMODECHANGE {
        Some(WindowMessage::DevModeChange)
    } else if id == WM_FONTCHANGE {
        Some(WindowMessage::FontChange)
    } else if id == WM_TIMECHANGE {
        Some(WindowMessage::TimeChange)
    } else if id == WM_CANCELMODE {
        Some(WindowMessage::CancelMode)
    } else if id == WM_CHILDACTIVATE {
        Some(WindowMessage::ChildActivate)
    } else if id == WM_QUEUESYNC {
        Some(WindowMessage::QueueSync)
    } else if id == WM_PAINTICON {
        Some(WindowMessage::PaintIcon)
    } else if id == WM_ICONERASEBKGND {
        Some(WindowMessage::IconEraseBackground)
    } else if id == WM_NEXTDLGCTL {
        Some(WindowMessage::NextDialogCtl)
    } else if id == WM_SPOOLERSTATUS {
        Some(WindowMessage::SpoolerStatus)
    } else if id == WM_DRAWITEM {
        Some(WindowMessage::DrawItem)
    } else if id == WM_MEASUREITEM {
        Some(WindowMessage::MeasureItem)
    } else if id == WM_DELETEITEM {
        Some(WindowMessage::DeleteItem)
    } else if id == WM_VKEYTOITEM {
        Some(WindowMessage::VKeyToItem)
    } else if id == WM_CHARTOITEM {
        Some(WindowMessage::CharToItem)
    } else if id == WM_SETFONT {
        Some(WindowMessage::SetFont)
    } else if id == WM_GETFONT {
        Some(WindowMessage::GetFont)
    } else if id == WM_SETHOTKEY {
        Some(WindowMessage::SetHotkey)
    } else if id == WM_GETHOTKEY {
        Some(WindowMessage::GetHotkey)
    } else if id == WM_QUERYDRAGICON {
        Some(WindowMessage::QueryDragIcon)
    } else if id == WM_COMPAREITEM {
        Some(WindowMessage::CompareItem)
    } else if id == WM_GETOBJECT {
        Some(WindowMessage::GetObject)
    } else if id == WM_COMPACTING {
        Some(WindowMessage::Compacting)
    } else if id == WM_COMMNOTIFY {
        Some(WindowMessage::CommNotify)
    } else if id == WM_POWER {
        Some(WindowMessage::Power)
    } else if id == WM_COPYDATA {
        Some(WindowMessage::CopyData)
    } else if id == WM_CANCELJOURNAL {
        Some(WindowMessage::CancelJournal)
    } else if id == WM_NOTIFY {
        Some(WindowMessage::Notify)
    } else if id == WM_INPUTLANGCHANGEREQUEST {
        Some(WindowMessage::InputLangChangeRequest)
    } else if id == WM_INPUTLANGCHANGE {
        Some(WindowMessage::InputLangChange)
    } else if id == WM_TCARD {
        Some(WindowMessage::TCard)
    } else if id == WM_HELP {
        Some(WindowMessage::Help)
    } else if id == WM_USERCHANGED {
        Some(WindowMessage::UserChanged)
    } else if id == WM_NOTIFYFORMAT {
        Some(WindowMessage::NotifyFormat)
    } else if id == WM_CONTEXTMENU {
        Some(WindowMessage::ContextMenu)
    } else if id == WM_DISPLAYCHANGE {
        Some(WindowMessage::DisplayChange)
    } else if id == WM_NCCREATE {
        Some(WindowMessage::NcCreate)
    } else if id == WM_NCDESTROY {
        Some(WindowMessage::NcDestroy)
    } else if id == WM_GETDLGCODE {
        Some(WindowMessage::GetDlgCode)
    } else if id == WM_SYNCPAINT {
        Some(WindowMessage::SyncPaint)
    } else if id == WM_NCLBUTTONDOWN {
        Some(WindowMessage::NclButtonDown)
    } else if id == WM_NCLBUTTONUP {
        Some(WindowMessage::NclButtonUp)
    } else if id == WM_NCLBUTTONDBLCLK {
        Some(WindowMessage::NclButtonDblClk)
    } else if id == WM_NCRBUTTONDOWN {
        Some(WindowMessage::NcRButtonDown)
    } else if id == WM_NCRBUTTONUP {
        Some(WindowMessage::NcRButtonUp)
    } else if id == WM_NCRBUTTONDBLCLK {
        Some(WindowMessage::NcRButtonDblClk)
    } else if id == WM_NCMBUTTONDOWN {
        Some(WindowMessage::NcMButtonDown)
    } else if id == WM_NCMBUTTONUP {
        Some(WindowMessage::NcMButtonUp)
    } else if id == WM_NCMBUTTONDBLCLK {
        Some(WindowMessage::NcMButtonDblClk)
    } else if id == WM_NCXBUTTONDOWN {
        Some(WindowMessage::NcXButtonDown)
    } else if id == WM_NCXBUTTONUP {
        Some(WindowMessage::NcXButtonUp)
    } else if id == WM_NCXBUTTONDBLCLK {
        Some(WindowMessage::NcXButtonDblClk)
    } else if id == WM_INPUT_DEVICE_CHANGE {
        Some(WindowMessage::InputDeviceChange)
    } else if id == WM_INPUT {
        Some(WindowMessage::Input)
    } else if id == WM_CHAR {
        Some(WindowMessage::Char)
    } else if id == WM_DEADCHAR {
        Some(WindowMessage::DeadChar)
    } else if id == WM_SYSCHAR {
        Some(WindowMessage::SysChar)
    } else if id == WM_SYSDEADCHAR {
        Some(WindowMessage::SysDeadChar)
    } else if id == WM_UNICHAR {
        Some(WindowMessage::UniChar)
    } else if id == WM_IME_STARTCOMPOSITION {
        Some(WindowMessage::ImeStartComposition)
    } else if id == WM_IME_ENDCOMPOSITION {
        Some(WindowMessage::ImeEndComposition)
    } else if id == WM_IME_COMPOSITION {
        Some(WindowMessage::ImeComposition)
    } else if id == WM_INITDIALOG {
        Some(WindowMessage::InitDialog)
    } else if id == WM_COMMAND {
        Some(WindowMessage::Command)
    } else if id == WM_SYSCOMMAND {
        Some(WindowMessage::SysCommand)
    } else if id == WM_TIMER {
        Some(WindowMessage::TIMER)
    } else if id == WM_HSCROLL {
        Some(WindowMessage::HScroll)
    } else if id == WM_VSCROLL {
        Some(WindowMessage::VScroll)
    } else if id == WM_INITMENU {
        Some(WindowMessage::InitMenu)
    } else if id == WM_INITMENUPOPUP {
        Some(WindowMessage::InitMenuPopup)
    } else if id == WM_GESTURE {
        Some(WindowMessage::Gesture)
    } else if id == WM_GESTURENOTIFY {
        Some(WindowMessage::GestureNotify)
    } else if id == WM_MENUSELECT {
        Some(WindowMessage::MenuSelect)
    } else if id == WM_MENUCHAR {
        Some(WindowMessage::MenuChar)
    } else if id == WM_ENTERIDLE {
        Some(WindowMessage::EnterIdle)
    } else if id == WM_MENURBUTTONUP {
        Some(WindowMessage::MenuRButtonUp)
    } else if id == WM_MENUDRAG {
        Some(WindowMessage::MenuDrag)
    } else if id == WM_MENUGETOBJECT {
        Some(WindowMessage::MenuGetObject)
    } else if id == WM_UNINITMENUPOPUP {
        Some(WindowMessage::UninitMenuPopup)
    } else if id == WM_MENUCOMMAND {
        Some(WindowMessage::MenuCommand)
    } else if id == WM_CHANGEUISTATE {
        Some(WindowMessage::ChangeUiState)
    } else if id == WM_UPDATEUISTATE {
        Some(WindowMessage::UpdateUiState)
    } else if id == WM_QUERYUISTATE {
        Some(WindowMessage::QueryUiState)
    } else if id == WM_CTLCOLORMSGBOX {
        Some(WindowMessage::CtlColorMsgBox)
    } else if id == WM_CTLCOLOREDIT {
        Some(WindowMessage::CtlColorEdit)
    } else if id == WM_CTLCOLORLISTBOX {
        Some(WindowMessage::CtlColorListBox)
    } else if id == WM_CTLCOLORBTN {
        Some(WindowMessage::CtlColorBtn)
    } else if id == WM_CTLCOLORDLG {
        Some(WindowMessage::CtlColorDlg)
    } else if id == WM_CTLCOLORSCROLLBAR {
        Some(WindowMessage::CtlColorScrollbar)
    } else if id == WM_CTLCOLORSTATIC {
        Some(WindowMessage::CtlColorStatic)
    } else {
        None
    }
}

/// The bare tag a known identifier at or above 0x0200 names, where the
/// message carries no payload.
pub open spec fn spec_unit_message_high(id: u32) -> Option<WindowMessage> {
    if id == WM_PARENTNOTIFY {
        Some(WindowMessage::ParentNotify)
    } else if id == WM_ENTERMENULOOP {
        Some(WindowMessage::EnterMenuLoop)
    } else if id == WM_EXITMENULOOP {
        Some(WindowMessage::ExitMenuLoop)
    } else if id == WM_NEXTMENU {
        Some(WindowMessage::NextMenu)
    } else if id == WM_SIZING {
        Some(WindowMessage::Sizing)
    } else if id == WM_MOVING {
        Some(WindowMessage::Moving)
    } else if id == WM_DEVICECHANGE {
        Some(WindowMessage::DeviceChange)
    } else if id == WM_MDICREATE {
        Some(WindowMessage::MdiCreate)
    } else if id == WM_MDIDESTROY {
        Some(WindowMessage::MdiDestroy)
    } else if id == WM_MDIACTIVATE {
        Some(WindowMessage::MdiActivate)
    } else if id == WM_MDIRESTORE {
        Some(WindowMessage::MdiRestore)
    } else if id == WM_MDINEXT {
        Some(WindowMessage::MdiNext)
    } else if id == WM_MDIMAXIMIZE {
        Some(WindowMessage::MdiMaximize)
    } else if id == WM_MDITILE {
        Some(WindowMessage::MdiTile)
    } else if id == WM_MDICASCADE {
        Some(WindowMessage::MdiCascade)
    } else if id == WM_MDIICONARRANGE {
        Some(WindowMessage::MdiIconArrange)
    } else if id == WM_MDIGETACTIVE {
        Some(WindowMessage::MdiGetActive)
    } else if id == WM_MDISETMENU {
        Some(WindowMessage::MdiSetMenu)
    } else if id == WM_ENTERSIZEMOVE {
        Some(WindowMessage::EnterSizeMove)
    } else if id == WM_EXITSIZEMOVE {
        Some(WindowMessage::ExitSizeMove)
    } else if id == WM_DROPFILES {
        Some(WindowMessage::DropFiles)
    } else if id == WM_MDIREFRESHMENU {
        Some(WindowMessage::MdiRefreshMenu)
    } else if id == WM_POINTERDEVICECHANGE {
        Some(WindowMessage::PointerDeviceChange)
    } else if id == WM_POINTERDEVICEINRANGE {
        Some(WindowMessage::PointerDeviceInRange)
    } else if id == WM_POINTERDEVICEOUTOFRANGE {
        Some(WindowMessage::PointerDeviceOutOfRange)
    } else if id == WM_TOUCH {
        Some(WindowMessage::Touch)
    } else if id == WM_NCPOINTERUPDATE {
        Some(WindowMessage::NcPointerUpdate)
    } else if id == WM_NCPOINTERDOWN {
        Some(WindowMessage::NcPointerDown)
    } else if id == WM_NCPOINTERUP {
        Some(WindowMessage::NcPointerUp)
    } else if id == WM_POINTERUPDATE {
        Some(WindowMessage::PointerUpdate)
    } else if id == WM_POINTERDOWN {
        Some(WindowMessage::POINTERDOWN)
    } else if id == WM_POINTERUP {
        Some(WindowMessage::POINTERUP)
    } else if id == WM_POINTERENTER {
        Some(WindowMessage::POINTERENTER)
    } else if id == WM_POINTERLEAVE {
        Some(WindowMessage::POINTERLEAVE)
    } else if id == WM_POINTERACTIVATE {
        Some(WindowMessage::PointerActivate)
    } else if id == WM_POINTERCAPTURECHANGED {
        Some(WindowMessage::PointerCaptureChanged)
    } else if id == WM_TOUCHHITTESTING {
        Some(WindowMessage::TouchHitTesting)
    } else if id == WM_POINTERWHEEL {
        Some(WindowMessage::PointerWheel)
    } else if id == WM_POINTERHWHEEL {
        Some(WindowMessage::PointerHWheel)
    } else if id == WM_POINTERROUTEDTO {
        Some(WindowMessage::PointerRoutedTo)
    } else if id == WM_POINTERROUTEDAWAY {
        Some(WindowMessage::PointerRoutedAway)
    } else if id == WM_POINTERROUTEDRELEASED {
        Some(WindowMessage::PointerRoutedReleased)
    } else if id == WM_IME_CONTROL {
        Some(WindowMessage::ImeControl)
    } else if id == WM_IME_COMPOSITIONFULL {
        Some(WindowMessage::ImeCompositionFull)
    } else if id == WM_IME_SELECT {
        Some(WindowMessage::ImeSelect)
    } else if id == WM_IME_CHAR {
        Some(WindowMessage::ImeChar)
    } else if id == WM_IME_REQUEST {
        Some(WindowMessage::ImeRequest)
    } else if id == WM_IME_KEYDOWN {
        Some(WindowMessage::ImeKeydown)
    } else if id == WM_IME_KEYUP {
        Some(WindowMessage::ImeKeyup)
    } else if id == WM_NCMOUSEHOVER {
        Some(WindowMessage::NcMouseHover)
    } else if id == WM_NCMOUSELEAVE {
        Some(WindowMessage::NcMouseLeave)
    } else if id == WM_MOUSELEAVE {
        Some(WindowMessage::MouseLeave)
    } else if id == WM_WTSSESSION_CHANGE {
        Some(WindowMessage::WtsSessionChange)
    } else if id == WM_TABLET_FIRST {
        Some(WindowMessage::TabletFirst)
    } else if id == WM_TABLET_LAST {
        Some(WindowMessage::TabletLast)
    } else if id == WM_DPICHANGED {
        Some(WindowMessage::DpiChanged)
    } else if id == WM_DPICHANGED_BEFOREPARENT {
        Some(WindowMessage::DpiChangedBeforeParent)
    } else if id == WM_DPICHANGED_AFTERPARENT {
        Some(WindowMessage::DpiChangedAfterParent)
    } else if id == WM_GETDPISCALEDSIZE {
        Some(WindowMessage::GetDpiScaledSize)
    } else if id == WM_CUT {
        Some(WindowMessage::Cut)
    } else if id == WM_COPY {
        Some(WindowMessage::Copy)
    } else if id == WM_PASTE {
        Some(WindowMessage::Paste)
    } else if id == WM_CLEAR {
        Some(WindowMessage::Clear)
    } else if id == WM_UNDO {
        Some(WindowMessage::Undo)
    } else if id == WM_RENDERFORMAT {
        Some(WindowMessage::RenderFormat)
    } else if id == WM_RENDERALLFORMATS {
        Some(WindowMessage::RenderAllFormats)
    } else if id == WM_DESTROYCLIPBOARD {
        Some(WindowMessage::DestroyClipboard)
    } else if id == WM_DRAWCLIPBOARD {
        Some(WindowMessage::DrawClipboard)
    } else if id == WM_PAINTCLIPBOARD {
        Some(WindowMessage::PaintClipboard)
    } else if id == WM_VSCROLLCLIPBOARD {
        Some(WindowMessage::VScrollClipboard)
    } else if id == WM_SIZECLIPBOARD {
        Some(WindowMessage::SizeClipboard)
    } else if id == WM_ASKCBFORMATNAME {
        Some(WindowMessage::AskCbFormatName)
    } else if id == WM_CHANGECBCHAIN {
        Some(WindowMessage::ChangeCbChain)
    } else if id == WM_HSCROLLCLIPBOARD {
        Some(WindowMessage::HScrollClipboard)
    } else if id == WM_QUERYNEWPALETTE {
        Some(WindowMessage::QueryNewPalette)
    } else if id == WM_PALETTEISCHANGING {
        Some(WindowMessage::PaletteIsChanging)
    } else if id == WM_PALETTECHANGED {
        Some(WindowMessage::PaletteChanged)
    } else if id == WM_HOTKEY {
        Some(WindowMessage::Hotkey)
    } else if id == WM_PRINT {
        Some(WindowMessage::Print)
    } else if id == WM_PRINTCLIENT {
        Some(WindowMessage::PrintClient)
    } else if id == WM_APPCOMMAND {
        Some(WindowMessage::AppCommand)
    } else if id == WM_THEMECHANGED {
        Some(WindowMessage::ThemeChanged)
    } else if id == WM_CLIPBOARDUPDATE {
        Some(WindowMessage::ClipboardUpdate)
    } else if id == WM_DWMCOMPOSITIONCHANGED {
        Some(WindowMessage::DwmCompositionChanged)
    } else if id == WM_DWMNCRENDERINGCHANGED {
        Some(WindowMessage::DwmNcRenderingChanged)
    } else if id == WM_DWMCOLORIZATIONCOLORCHANGED {
        Some(WindowMessage::DwmColorizationColorChanged)
    } else if id == WM_DWMWINDOWMAXIMIZEDCHANGE {
        Some(WindowMessage::DwmWindowMaximizedChange)
    } else if id == WM_DWMSENDICONICTHUMBNAIL {
        Some(WindowMessage::DwmSendIconIcThumbnail)
    } else if id == WM_DWMSENDICONICLIVEPREVIEWBITMAP {
        Some(WindowMessage::DwmSendIconIcLivePreviewBitmap)
    } else if id == WM_GETTITLEBARINFOEX {
        Some(WindowMessage::GetTitleBarInfoEx)
    } else if id == WM_HANDHELDFIRST {
        Some(WindowMessage::HandHeldFirst)
    } else if id == WM_HANDHELDLAST {
        Some(WindowMessage::HandHeldLast)
    } else if id == WM_AFXFIRST {
        Some(WindowMessage::AfxFirst)
    } else if id == WM_AFXLAST {
        Some(WindowMessage::AfxLast)
    } else if id == WM_PENWINFIRST {
        Some(WindowMessage::PenWinFirst)
    } else if id == WM_PENWINLAST {
        Some(WindowMessage::PenWinLast)
    } else {
        None
    }
}

/// The bare tag a known identifier names, where the message carries no
/// payload.
pub open spec fn spec_unit_message(id: u32) -> Option<WindowMessage> {
    if id < 0x0200 {
        spec_unit_message_low(id)
    } else {
        spec_unit_message_high(id)
    }
}

fn unit_message_low(id: u32) -> (r: Option<WindowMessage>)
    ensures
        r == spec_unit_message_low(id),
{
    if id == WM_NULL {
        Some(WindowMessage::Null)
    } else if id == WM_DESTROY {
        Some(WindowMessage::Destroy)
    } else if id == WM_KILLFOCUS {
        Some(WindowMessage::KillFocus)
    } else if id == WM_ENABLE {
        Some(WindowMessage::Enable)
    } else if id == WM_SETREDRAW {
        Some(WindowMessage::SetRedraw)
    } else if id == WM_SETTEXT {
        Some(WindowMessage::SetText)
    } else if id == WM_GETTEXT {
        Some(WindowMessage::GetText)
    } else if id == WM_GETTEXTLENGTH {
        Some(WindowMessage::GetTextLength)
    } else if id == WM_PAINT {
        Some(WindowMessage::Paint)
    } else if id == WM_CLOSE {
        Some(WindowMessage::Close)
    } else if id == WM_QUERYENDSESSION {
        Some(WindowMessage::QueryEndSession)
    } else if id == WM_QUIT {
        Some(WindowMessage::Quit)
    } else if id == WM_QUERYOPEN {
        Some(WindowMessage::QueryOpen)
    } else if id == WM_SYSCOLORCHANGE {
        Some(WindowMessage::SysColorChange)
    } else if id == WM_ENDSESSION {
        Some(WindowMessage::EndSession)
    } else if id == WM_SETTINGCHANGE {
        Some(WindowMessage::SettingChange)
    } else if id == WM_DEVMODECHANGE {
        Some(WindowMessage::DevModeChange)
    } else if id == WM_FONTCHANGE {
        Some(WindowMessage::FontChange)
    } else if id == WM_TIMECHANGE {
        Some(WindowMessage::TimeChange)
    } else if id == WM_CANCELMODE {
        Some(WindowMessage::CancelMode)
    } else if id == WM_CHILDACTIVATE {
        Some(WindowMessage::ChildActivate)
    } else if id == WM_QUEUESYNC {
        Some(WindowMessage::QueueSync)
    } else if id == WM_PAINTICON {
        Some(WindowMessage::PaintIcon)
    } else if id == WM_ICONERASEBKGND {
        Some(WindowMessage::IconEraseBackground)
    } else if id == WM_NEXTDLGCTL {
        Some(WindowMessage::NextDialogCtl)
    } else if id == WM_SPOOLERSTATUS {
        Some(WindowMessage::SpoolerStatus)
    } else if id == WM_DRAWITEM {
        Some(WindowMessage::DrawItem)
    } else if id == WM_MEASUREITEM {
        Some(WindowMessage::MeasureItem)
    } else if id == WM_DELETEITEM {
        Some(WindowMessage::DeleteItem)
    } else if id == WM_VKEYTOITEM {
        Some(WindowMessage::VKeyToItem)
    } else if id == WM_CHARTOITEM {
        Some(WindowMessage::CharToItem)
    } else if id == WM_SETFONT {
        Some(WindowMessage::SetFont)
    } else if id == WM_GETFONT {
        Some(WindowMessage::GetFont)
    } else if id == WM_SETHOTKEY {
        Some(WindowMessage::SetHotkey)
    } else if id == WM_GETHOTKEY {
        Some(WindowMessage::GetHotkey)
    } else if id == WM_QUERYDRAGICON {
        Some(WindowMessage::QueryDragIcon)
    } else if id == WM_COMPAREITEM {
        Some(WindowMessage::CompareItem)
    } else if id == WM_GETOBJECT {
        Some(WindowMessage::GetObject)
    } else if id == WM_COMPACTING {
        Some(WindowMessage::Compacting)
    } else if id == WM_COMMNOTIFY {
        Some(WindowMessage::CommNotify)
    } else if id == WM_POWER {
        Some(WindowMessage::Power)
    } else if id == WM_COPYDATA {
        Some(WindowMessage::CopyData)
    } else if id == WM_CANCELJOURNAL {
        Some(WindowMessage::CancelJournal)
    } else if id == WM_NOTIFY {
        Some(WindowMessage::Notify)
    } else if id == WM_INPUTLANGCHANGEREQUEST {
        Some(WindowMessage::InputLangChangeRequest)
    } else if id == WM_INPUTLANGCHANGE {
        Some(WindowMessage::InputLangChange)
    } else if id == WM_TCARD {
        Some(WindowMessage::TCard)
    } else if id == WM_HELP {
        Some(WindowMessage::Help)
    } else if id == WM_USERCHANGED {
        Some(WindowMessage::UserChanged)
    } else if id == WM_NOTIFYFORMAT {
        Some(WindowMessage::NotifyFormat)
    } else if id == WM_CONTEXTMENU {
        Some(WindowMessage::ContextMenu)
    } else if id == WM_DISPLAYCHANGE {
        Some(WindowMessage::DisplayChange)
    } else if id == WM_NCCREATE {
        Some(WindowMessage::NcCreate)
    } else if id == WM_NCDESTROY {
        Some(WindowMessage::NcDestroy)
    } else if id == WM_GETDLGCODE {
        Some(WindowMessage::GetDlgCode)
    } else if id == WM_SYNCPAINT {
        Some(WindowMessage::SyncPaint)
    } else if id == WM_NCLBUTTONDOWN {
        Some(WindowMessage::NclButtonDown)
    } else if id == WM_NCLBUTTONUP {
        Some(WindowMessage::NclButtonUp)
    } else if id == WM_NCLBUTTONDBLCLK {
        Some(WindowMessage::NclButtonDblClk)
    } else if id == WM_NCRBUTTONDOWN {
        Some(WindowMessage::NcRButtonDown)
    } else if id == WM_NCRBUTTONUP {
        Some(WindowMessage::NcRButtonUp)
    } else if id == WM_NCRBUTTONDBLCLK {
        Some(WindowMessage::NcRButtonDblClk)
    } else if id == WM_NCMBUTTONDOWN {
        Some(WindowMessage::NcMButtonDown)
    } else if id == WM_NCMBUTTONUP {
        Some(WindowMessage::NcMButtonUp)
    } else if id == WM_NCMBUTTONDBLCLK {
        Some(WindowMessage::NcMButtonDblClk)
    } else if id == WM_NCXBUTTONDOWN {
        Some(WindowMessage::NcXButtonDown)
    } else if id == WM_NCXBUTTONUP {
        Some(WindowMessage::NcXButtonUp)
    } else if id == WM_NCXBUTTONDBLCLK {
        Some(WindowMessage::NcXButtonDblClk)
    } else if id == WM_INPUT_DEVICE_CHANGE {
        Some(WindowMessage::InputDeviceChange)
    } else if id == WM_INPUT {
        Some(WindowMessage::Input)
    } else if id == WM_CHAR {
        Some(WindowMessage::Char)
    } else if id == WM_DEADCHAR {
        Some(WindowMessage::DeadChar)
    } else if id == WM_SYSCHAR {
        Some(WindowMessage::SysChar)
    } else if id == WM_SYSDEADCHAR {
        Some(WindowMessage::SysDeadChar)
    } else if id == WM_UNICHAR {
        Some(WindowMessage::UniChar)
    } else if id == WM_IME_STARTCOMPOSITION {
        Some(WindowMessage::ImeStartComposition)
    } else if id == WM_IME_ENDCOMPOSITION {
        Some(WindowMessage::ImeEndComposition)
    } else if id == WM_IME_COMPOSITION {
        Some(WindowMessage::ImeComposition)
    } else if id == WM_INITDIALOG {
        Some(WindowMessage::InitDialog)
    } else if id == WM_COMMAND {
        Some(WindowMessage::Command)
    } else if id == WM_SYSCOMMAND {
        Some(WindowMessage::SysCommand)
    } else if id == WM_TIMER {
        Some(WindowMessage::TIMER)
    } else if id == WM_HSCROLL {
        Some(WindowMessage::HScroll)
    } else if id == WM_VSCROLL {
        Some(WindowMessage::VScroll)
    } else if id == WM_INITMENU {
        Some(WindowMessage::InitMenu)
    } else if id == WM_INITMENUPOPUP {
        Some(WindowMessage::InitMenuPopup)
    } else if id == WM_GESTURE {
        Some(WindowMessage::Gesture)
    } else if id == WM_GESTURENOTIFY {
        Some(WindowMessage::GestureNotify)
    } else if id == WM_MENUSELECT {
        Some(WindowMessage::MenuSelect)
    } else if id == WM_MENUCHAR {
        Some(WindowMessage::MenuChar)
    } else if id == WM_ENTERIDLE {
        Some(WindowMessage::EnterIdle)
    } else if id == WM_MENURBUTTONUP {
        Some(WindowMessage::MenuRButtonUp)
    } else if id == WM_MENUDRAG {
        Some(WindowMessage::MenuDrag)
    } else if id == WM_MENUGETOBJECT {
        Some(WindowMessage::MenuGetObject)
    } else if id == WM_UNINITMENUPOPUP {
        Some(WindowMessage::UninitMenuPopup)
    } else if id == WM_MENUCOMMAND {
        Some(WindowMessage::MenuCommand)
    } else if id == WM_CHANGEUISTATE {
        Some(WindowMessage::ChangeUiState)
    } else if id == WM_UPDATEUISTATE {
        Some(WindowMessage::UpdateUiState)
    } else if id == WM_QUERYUISTATE {
        Some(WindowMessage::QueryUiState)
    } else if id == WM_CTLCOLORMSGBOX {
        Some(WindowMessage::CtlColorMsgBox)
    } else if id == WM_CTLCOLOREDIT {
        Some(WindowMessage::CtlColorEdit)
    } else if id == WM_CTLCOLORLISTBOX {
        Some(WindowMessage::CtlColorListBox)
    } else if id == WM_CTLCOLORBTN {
        Some(WindowMessage::CtlColorBtn)
    } else if id == WM_CTLCOLORDLG {
        Some(WindowMessage::CtlColorDlg)
    } else if id == WM_CTLCOLORSCROLLBAR {
        Some(WindowMessage::CtlColorScrollbar)
    } else if id == WM_CTLCOLORSTATIC {
        Some(WindowMessage::CtlColorStatic)
    } else {
        None
    }
}

fn unit_message_high(id: u32) -> (r: Option<WindowMessage>)
    ensures
        r == spec_unit_message_high(id),
{
    if id == WM_PARENTNOTIFY {
        Some(WindowMessage::ParentNotify)
    } else if id == WM_ENTERMENULOOP {
        Some(WindowMessage::EnterMenuLoop)
    } else if id == WM_EXITMENULOOP {
        Some(WindowMessage::ExitMenuLoop)
    } else if id == WM_NEXTMENU {
        Some(WindowMessage::NextMenu)
    } else if id == WM_SIZING {
        Some(WindowMessage::Sizing)
    } else if id == WM_MOVING {
        Some(WindowMessage::Moving)
    } else if id == WM_DEVICECHANGE {
        Some(WindowMessage::DeviceChange)
    } else if id == WM_MDICREATE {
        Some(WindowMessage::MdiCreate)
    } else if id == WM_MDIDESTROY {
        Some(WindowMessage::MdiDestroy)
    } else if id == WM_MDIACTIVATE {
        Some(WindowMessage::MdiActivate)
    } else if id == WM_MDIRESTORE {
        Some(WindowMessage::MdiRestore)
    } else if id == WM_MDINEXT {
        Some(WindowMessage::MdiNext)
    } else if id == WM_MDIMAXIMIZE {
        Some(WindowMessage::MdiMaximize)
    } else if id == WM_MDITILE {
        Some(WindowMessage::MdiTile)
    } else if id == WM_MDICASCADE {
        Some(WindowMessage::MdiCascade)
    } else if id == WM_MDIICONARRANGE {
        Some(WindowMessage::MdiIconArrange)
    } else if id == WM_MDIGETACTIVE {
        Some(WindowMessage::MdiGetActive)
    } else if id == WM_MDISETMENU {
        Some(WindowMessage::MdiSetMenu)
    } else if id == WM_ENTERSIZEMOVE {
        Some(WindowMessage::EnterSizeMove)
    } else if id == WM_EXITSIZEMOVE {
        Some(WindowMessage::ExitSizeMove)
    } else if id == WM_DROPFILES {
        Some(WindowMessage::DropFiles)
    } else if id == WM_MDIREFRESHMENU {
        Some(WindowMessage::MdiRefreshMenu)
    } else if id == WM_POINTERDEVICECHANGE {
        Some(WindowMessage::PointerDeviceChange)
    } else if id == WM_POINTERDEVICEINRANGE {
        Some(WindowMessage::PointerDeviceInRange)
    } else if id == WM_POINTERDEVICEOUTOFRANGE {
        Some(WindowMessage::PointerDeviceOutOfRange)
    } else if id == WM_TOUCH {
        Some(WindowMessage::Touch)
    } else if id == WM_NCPOINTERUPDATE {
        Some(WindowMessage::NcPointerUpdate)
    } else if id == WM_NCPOINTERDOWN {
        Some(WindowMessage::NcPointerDown)
    } else if id == WM_NCPOINTERUP {
        Some(WindowMessage::NcPointerUp)
    } else if id == WM_POINTERUPDATE {
        Some(WindowMessage::PointerUpdate)
    } else if id == WM_POINTERDOWN {
        Some(WindowMessage::POINTERDOWN)
    } else if id == WM_POINTERUP {
        Some(WindowMessage::POINTERUP)
    } else if id == WM_POINTERENTER {
        Some(WindowMessage::POINTERENTER)
    } else if id == WM_POINTERLEAVE {
        Some(WindowMessage::POINTERLEAVE)
    } else if id == WM_POINTERACTIVATE {
        Some(WindowMessage::PointerActivate)
    } else if id == WM_POINTERCAPTURECHANGED {
        Some(WindowMessage::PointerCaptureChanged)
    } else if id == WM_TOUCHHITTESTING {
        Some(WindowMessage::TouchHitTesting)
    } else if id == WM_POINTERWHEEL {
        Some(WindowMessage::PointerWheel)
    } else if id == WM_POINTERHWHEEL {
        Some(WindowMessage::PointerHWheel)
    } else if id == WM_POINTERROUTEDTO {
        Some(WindowMessage::PointerRoutedTo)
    } else if id == WM_POINTERROUTEDAWAY {
        Some(WindowMessage::PointerRoutedAway)
    } else if id == WM_POINTERROUTEDRELEASED {
        Some(WindowMessage::PointerRoutedReleased)
    } else if id == WM_IME_CONTROL {
        Some(WindowMessage::ImeControl)
    } else if id == WM_IME_COMPOSITIONFULL {
        Some(WindowMessage::ImeCompositionFull)
    } else if id == WM_IME_SELECT {
        Some(WindowMessage::ImeSelect)
    } else if id == WM_IME_CHAR {
        Some(WindowMessage::ImeChar)
    } else if id == WM_IME_REQUEST {
        Some(WindowMessage::ImeRequest)
    } else if id == WM_IME_KEYDOWN {
        Some(WindowMessage::ImeKeydown)
    } else if id == WM_IME_KEYUP {
        Some(WindowMessage::ImeKeyup)
    } else if id == WM_NCMOUSEHOVER {
        Some(WindowMessage::NcMouseHover)
    } else if id == WM_NCMOUSELEAVE {
        Some(WindowMessage::NcMouseLeave)
    } else if id == WM_MOUSELEAVE {
        Some(WindowMessage::MouseLeave)
    } else if id == WM_WTSSESSION_CHANGE {
        Some(WindowMessage::WtsSessionChange)
    } else if id == WM_TABLET_FIRST {
        Some(WindowMessage::TabletFirst)
    } else if id == WM_TABLET_LAST {
        Some(WindowMessage::TabletLast)
    } else if id == WM_DPICHANGED {
        Some(WindowMessage::DpiChanged)
    } else if id == WM_DPICHANGED_BEFOREPARENT {
        Some(WindowMessage::DpiChangedBeforeParent)
    } else if id == WM_DPICHANGED_AFTERPARENT {
        Some(WindowMessage::DpiChangedAfterParent)
    } else if id == WM_GETDPISCALEDSIZE {
        Some(WindowMessage::GetDpiScaledSize)
    } else if id == WM_CUT {
        Some(WindowMessage::Cut)
    } else if id == WM_COPY {
        Some(WindowMessage::Copy)
    } else if id == WM_PASTE {
        Some(WindowMessage::Paste)
    } else if id == WM_CLEAR {
        Some(WindowMessage::Clear)
    } else if id == WM_UNDO {
        Some(WindowMessage::Undo)
    } else if id == WM_RENDERFORMAT {
        Some(WindowMessage::RenderFormat)
    } else if id == WM_RENDERALLFORMATS {
        Some(WindowMessage::RenderAllFormats)
    } else if id == WM_DESTROYCLIPBOARD {
        Some(WindowMessage::DestroyClipboard)
    } else if id == WM_DRAWCLIPBOARD {
        Some(WindowMessage::DrawClipboard)
    } else if id == WM_PAINTCLIPBOARD {
        Some(WindowMessage::PaintClipboard)
    } else if id == WM_VSCROLLCLIPBOARD {
        Some(WindowMessage::VScrollClipboard)
    } else if id == WM_SIZECLIPBOARD {
        Some(WindowMessage::SizeClipboard)
    } else if id == WM_ASKCBFORMATNAME {
        Some(WindowMessage::AskCbFormatName)
    } else if id == WM_CHANGECBCHAIN {
        Some(WindowMessage::ChangeCbChain)
    } else if id == WM_HSCROLLCLIPBOARD {
        Some(WindowMessage::HScrollClipboard)
    } else if id == WM_QUERYNEWPALETTE {
        Some(WindowMessage::QueryNewPalette)
    } else if id == WM_PALETTEISCHANGING {
        Some(WindowMessage::PaletteIsChanging)
    } else if id == WM_PALETTECHANGED {
        Some(WindowMessage::PaletteChanged)
    } else if id == WM_HOTKEY {
        Some(WindowMessage::Hotkey)
    } else if id == WM_PRINT {
        Some(WindowMessage::Print)
    } else if id == WM_PRINTCLIENT {
        Some(WindowMessage::PrintClient)
    } else if id == WM_APPCOMMAND {
        Some(WindowMessage::AppCommand)
    } else if id == WM_THEMECHANGED {
        Some(WindowMessage::ThemeChanged)
    } else if id == WM_CLIPBOARDUPDATE {
        Some(WindowMessage::ClipboardUpdate)
    } else if id == WM_DWMCOMPOSITIONCHANGED {
        Some(WindowMessage::DwmCompositionChanged)
    } else if id == WM_DWMNCRENDERINGCHANGED {
        Some(WindowMessage::DwmNcRenderingChanged)
    } else if id == WM_DWMCOLORIZATIONCOLORCHANGED {
        Some(WindowMessage::DwmColorizationColorChanged)
    } else if id == WM_DWMWINDOWMAXIMIZEDCHANGE {
        Some(WindowMessage::DwmWindowMaximizedChange)
    } else if id == WM_DWMSENDICONICTHUMBNAIL {
        Some(WindowMessage::DwmSendIconIcThumbnail)
    } else if id == WM_DWMSENDICONICLIVEPREVIEWBITMAP {
        Some(WindowMessage::DwmSendIconIcLivePreviewBitmap)
    } else if id == WM_GETTITLEBARINFOEX {
        Some(WindowMessage::GetTitleBarInfoEx)
    } else if id == WM_HANDHELDFIRST {
        Some(WindowMessage::HandHeldFirst)
    } else if id == WM_HANDHELDLAST {
        Some(WindowMessage::HandHeldLast)
    } else if id == WM_AFXFIRST {
        Some(WindowMessage::AfxFirst)
    } else if id == WM_AFXLAST {
        Some(WindowMessage::AfxLast)
    } else if id == WM_PENWINFIRST {
        Some(WindowMessage::PenWinFirst)
    } else if id == WM_PENWINLAST {
        Some(WindowMessage::PenWinLast)
    } else {
        None
    }
}

fn unit_message(id: u32) -> (r: Option<WindowMessage>)
    ensures
        r == spec_unit_message(id),
{
    if id < 0x0200 {
        unit_message_low(id)
    } else {
        unit_message_high(id)
    }
}

/// Whether a known identifier carries a payload reconstructed from the
/// parameter words.
pub open spec fn is_payload_id(id: u32) -> bool {
    ||| id == WM_CREATE
    ||| id == WM_MOVE
    ||| id == WM_SIZE
    ||| id == WM_ACTIVATE
    ||| id == WM_SETFOCUS
    ||| id == WM_ERASEBKGND
    ||| id == WM_SHOWWINDOW
    ||| id == WM_ACTIVATEAPP
    ||| id == WM_SETCURSOR
    ||| id == WM_MOUSEACTIVATE
    ||| id == WM_GETMINMAXINFO
    ||| id == WM_WINDOWPOSCHANGING
    ||| id == WM_WINDOWPOSCHANGED
    ||| id == WM_STYLECHANGING
    ||| id == WM_STYLECHANGED
    ||| id == WM_GETICON
    ||| id == WM_SETICON
    ||| id == WM_NCCALCSIZE
    ||| id == WM_NCHITTEST
    ||| id == WM_NCPAINT
    ||| id == WM_NCACTIVATE
    ||| id == WM_NCMOUSEMOVE
    ||| id == WM_NCUAHDRAWCAPTION
    ||| id == WM_NCUAHDRAWFRAME
    ||| id == WM_KEYDOWN
    ||| id == WM_KEYUP
    ||| id == WM_SYSKEYDOWN
    ||| id == WM_SYSKEYUP
    ||| id == WM_MOUSEMOVE
    ||| id == WM_LBUTTONDOWN
    ||| id == WM_LBUTTONUP
    ||| id == WM_LBUTTONDBLCLK
    ||| id == WM_RBUTTONDOWN
    ||| id == WM_RBUTTONUP
    ||| id == WM_RBUTTONDBLCLK
    ||| id == WM_MBUTTONDOWN
    ||| id == WM_MBUTTONUP
    ||| id == WM_MBUTTONDBLCLK
    ||| id == WM_MOUSEWHEEL
    ||| id == WM_XBUTTONDOWN
    ||| id == WM_XBUTTONUP
    ||| id == WM_XBUTTONDBLCLK
    ||| id == WM_MOUSEHWHEEL
    ||| id == WM_CAPTURECHANGED
    ||| id == WM_POWERBROADCAST
    ||| id == WM_IME_SETCONTEXT
    ||| id == WM_IME_NOTIFY
    ||| id == WM_MOUSEHOVER
}

/// The typed message a payload-carrying identifier decodes to, or the
/// invalid-enumeration error where a closed sub-field is out of range.
/// Meaningful only for identifiers with `is_payload_id`.
pub open spec fn spec_payload_message(id: u32, w: usize, l: isize) -> Result<
    WindowMessage,
    DecodeError,
> {
    let raw = RawEvent { msg: id, w_param: w, l_param: l };
    if id == WM_CREATE {
        Ok(WindowMessage::Create { data: spec_addr_of_word(spec_word_bits(l)) })
    } else if id == WM_MOVE {
        Ok(WindowMessage::Move { x: spec_as_i16(spec_low16(spec_word_bits(l))), y: spec_as_i16(spec_high16(spec_word_bits(l))) })
    } else if id == WM_SIZE {
        match spec_window_resizing(w) {
            Some(rz) => Ok(WindowMessage::Size {
                resizing: rz,
                width: spec_as_i16(spec_low16(spec_word_bits(l))),
                height: spec_as_i16(spec_high16(spec_word_bits(l))),
            }),
            None => Err(DecodeError::InvalidEnumValue { event: raw }),
        }
    } else if id == WM_ACTIVATE {
        match spec_window_activation(spec_low16(w)) {
            Some(st) => Ok(WindowMessage::Activate {
                activated: spec_high16(w),
                state: st,
                window: spec_word_bits(l),
            }),
            None => Err(DecodeError::InvalidEnumValue { event: raw }),
        }
    } else if id == WM_SETFOCUS {
        Ok(WindowMessage::SetFocus { window: spec_addr_of_word(w) })
    } else if id == WM_ERASEBKGND {
        Ok(WindowMessage::EraseBackground { dc: w })
    } else if id == WM_SHOWWINDOW {
        Ok(WindowMessage::ShowWindow { shown: w, status: l })
    } else if id == WM_ACTIVATEAPP {
        Ok(WindowMessage::ActivateApp { activated: w, thread: l })
    } else if id == WM_SETCURSOR {
        Ok(WindowMessage::SetCursor { window: w, hit_test: spec_low16(spec_word_bits(l)), trigger_message: spec_high16(spec_word_bits(l)) })
    } else if id == WM_MOUSEACTIVATE {
        Ok(WindowMessage::MouseActivate { top_window: w, activation: l })
    } else if id == WM_GETMINMAXINFO {
        Ok(WindowMessage::GetMinMaxInfo { data: spec_addr_of_word(spec_word_bits(l)) })
    } else if id == WM_WINDOWPOSCHANGING {
        Ok(WindowMessage::WindowPosChanging { data: spec_addr_of_word(spec_word_bits(l)) })
    } else if id == WM_WINDOWPOSCHANGED {
        Ok(WindowMessage::WindowPosChanged { data: spec_addr_of_word(spec_word_bits(l)) })
    } else if id == WM_STYLECHANGING {
        match spec_gwl_style(w) {
            Some(st) => Ok(WindowMessage::StyleChanging { style: st, data: spec_addr_of_word(spec_word_bits(l)) }),
            None => Err(DecodeError::InvalidEnumValue { event: raw }),
        }
    } else if id == WM_STYLECHANGED {
        match spec_gwl_style(w) {
            Some(st) => Ok(WindowMessage::StyleChanged { style: st, data: spec_addr_of_word(spec_word_bits(l)) }),
            None => Err(DecodeError::InvalidEnumValue { event: raw }),
        }
    } else if id == WM_GETICON {
        match spec_icon_size(w) {
            Some(sz) => Ok(WindowMessage::GetIcon { size: sz, dpi: l }),
            None => Err(DecodeError::InvalidEnumValue { event: raw }),
        }
    } else if id == WM_SETICON {
        match spec_icon_size(w) {
            Some(sz) => Ok(WindowMessage::SetIcon { size: sz, icon: spec_word_bits(l) }),
            None => Err(DecodeError::InvalidEnumValue { event: raw }),
        }
    } else if id == WM_NCCALCSIZE {
        if w != 0 {
            Ok(WindowMessage::NcCalcSize { params: NcSizeParams::ValidClientArea { data: spec_addr_of_word(spec_word_bits(l)) } })
        } else {
            Ok(WindowMessage::NcCalcSize { params: NcSizeParams::Rect { data: spec_addr_of_word(spec_word_bits(l)) } })
        }
    } else if id == WM_NCHITTEST {
        Ok(WindowMessage::NcHitTest { pos: spec_pos_of_word(l) })
    } else if id == WM_NCPAINT {
        Ok(WindowMessage::NcPaint { update_region: w })
    } else if id == WM_NCACTIVATE {
        Ok(WindowMessage::NcActivate { update_icon: w, update_region: l })
    } else if id == WM_NCMOUSEMOVE {
        Ok(WindowMessage::NcMouseMove { hit_test: w, pos: spec_pos_of_word(l) })
    } else if id == WM_NCUAHDRAWCAPTION {
        Ok(WindowMessage::NcUahDrawCaption { w: w, l: l })
    } else if id == WM_NCUAHDRAWFRAME {
        Ok(WindowMessage::NcUahDrawFrame { w: w, l: l })
    } else if id == WM_KEYDOWN {
        Ok(WindowMessage::KeyDown { key_code: w, info: spec_decode_key_state(spec_low32(spec_word_bits(l))) })
    } else if id == WM_KEYUP {
        Ok(WindowMessage::KeyUp { key_code: w, info: spec_decode_key_state(spec_low32(spec_word_bits(l))) })
    } else if id == WM_SYSKEYDOWN {
        Ok(WindowMessage::SysKeyDown { key_code: w, info: spec_decode_key_state(spec_low32(spec_word_bits(l))) })
    } else if id == WM_SYSKEYUP {
        Ok(WindowMessage::SysKeyUp { key_code: w, info: spec_decode_key_state(spec_low32(spec_word_bits(l))) })
    } else if id == WM_MOUSEMOVE {
        Ok(WindowMessage::MouseMove { modifiers: w, pos: spec_pos_of_word(l) })
    } else if id == WM_LBUTTONDOWN {
        Ok(WindowMessage::LButtonDown { modifiers: w, pos: spec_pos_of_word(l) })
    } else if id == WM_LBUTTONUP {
        Ok(WindowMessage::LButtonUp { modifiers: w, pos: spec_pos_of_word(l) })
    } else if id == WM_LBUTTONDBLCLK {
        Ok(WindowMessage::LButtonDblClk { modifiers: w, pos: spec_pos_of_word(l) })
    } else if id == WM_RBUTTONDOWN {
        Ok(WindowMessage::RButtonDown { modifiers: w, pos: spec_pos_of_word(l) })
    } else if id == WM_RBUTTONUP {
        Ok(WindowMessage::RButtonUp { modifiers: w, pos: spec_pos_of_word(l) })
    } else if id == WM_RBUTTONDBLCLK {
        Ok(WindowMessage::RButtonDblClk { modifiers: w, pos: spec_pos_of_word(l) })
    } else if id == WM_MBUTTONDOWN {
        Ok(WindowMessage::MButtonDown { modifiers: w, pos: spec_pos_of_word(l) })
    } else if id == WM_MBUTTONUP {
        Ok(WindowMessage::MButtonUp { modifiers: w, pos: spec_pos_of_word(l) })
    } else if id == WM_MBUTTONDBLCLK {
        Ok(WindowMessage::MButtonDblClk { modifiers: w, pos: spec_pos_of_word(l) })
    } else if id == WM_MOUSEWHEEL {
        Ok(WindowMessage::MouseWheel { modifiers: spec_low16(w), delta: spec_high16(w), pos: spec_pos_of_word(l) })
    } else if id == WM_XBUTTONDOWN {
        Ok(WindowMessage::XButtonDown { modifiers: spec_low16(w), button: spec_high16(w), pos: spec_pos_of_word(l) })
    } else if id == WM_XBUTTONUP {
        Ok(WindowMessage::XButtonUp { modifiers: spec_low16(w), button: spec_high16(w), pos: spec_pos_of_word(l) })
    } else if id == WM_XBUTTONDBLCLK {
        Ok(WindowMessage::XButtonDblClk { modifiers: spec_low16(w), button: spec_high16(w), pos: spec_pos_of_word(l) })
    } else if id == WM_MOUSEHWHEEL {
        Ok(WindowMessage::MouseHWheel { modifiers: spec_low16(w), delta: spec_high16(w), pos: spec_pos_of_word(l) })
    } else if id == WM_CAPTURECHANGED {
        Ok(WindowMessage::CaptureChanged { window: spec_word_bits(l) })
    } else if id == WM_POWERBROADCAST {
        match spec_power_event(w) {
            Some(ev) => Ok(WindowMessage::PowerBroadcast { event: ev, data: spec_addr_of_word(spec_word_bits(l)) }),
            None => Err(DecodeError::InvalidEnumValue { event: raw }),
        }
    } else if id == WM_IME_SETCONTEXT {
        Ok(WindowMessage::ImeSetContext { active: w, display_options: l })
    } else if id == WM_IME_NOTIFY {
        Ok(WindowMessage::ImeNotify { window: w, command: l })
    } else if id == WM_MOUSEHOVER {
        Ok(WindowMessage::MouseHover { modifiers: w, pos: spec_pos_of_word(l) })
    } else {
        Ok(WindowMessage::Unknown(raw))
    }
}

/// Whether an identifier stands in the decoder's table of known
/// system-band messages.
pub open spec fn is_known_system_id(id: u32) -> bool {
    is_payload_id(id) || spec_unit_message(id) is Some
}

/// What a system-band triple decodes to: the typed message for a known
/// identifier (or the invalid-enumeration error for an out-of-range closed
/// sub-field), and `Unknown` carrying the triple unchanged for an identifier
/// outside the known table.
pub open spec fn spec_decode_system(id: u32, w: usize, l: isize) -> Result<
    WindowMessage,
    DecodeError,
> {
    if is_payload_id(id) {
        spec_payload_message(id, w, l)
    } else {
        match spec_unit_message(id) {
            Some(m) => Ok(m),
            None => Ok(WindowMessage::Unknown(RawEvent { msg: id, w_param: w, l_param: l })),
        }
    }
}

/// Decodes a system-band triple into its typed message by explicit dispatch
/// on the identifier. Total over the band: every identifier yields a known
/// tag, `Unknown`, or the invalid-enumeration error; never a guessed payload
/// shape.
pub fn decode_system(id: u32, w_param: usize, l_param: isize) -> (r: Result<
    WindowMessage,
    DecodeError,
>)
    requires
        id < WM_USER,
    ensures
        r == spec_decode_system(id, w_param, l_param),
{
    let raw = RawEvent { msg: id, w_param, l_param };
    if id == WM_CREATE {
        Ok(WindowMessage::Create { data: addr_of_word(word_bits(l_param)) })
    } else if id == WM_MOVE {
        { let p = pos_of_word(l_param); Ok(WindowMessage::Move { x: p.x, y: p.y }) }
    } else if id == WM_SIZE {
        match window_resizing_from_word(w_param) {
            Some(rz) => {
                let p = pos_of_word(l_param);
                Ok(WindowMessage::Size { resizing: rz, width: p.x, height: p.y })
            },
            None => Err(DecodeError::InvalidEnumValue { event: raw }),
        }
    } else if id == WM_ACTIVATE {
        match window_activation_from_word(low16(w_param)) {
            Some(st) => Ok(WindowMessage::Activate {
                activated: high16(w_param),
                state: st,
                window: word_bits(l_param),
            }),
            None => Err(DecodeError::InvalidEnumValue { event: raw }),
        }
    } else if id == WM_SETFOCUS {
        Ok(WindowMessage::SetFocus { window: addr_of_word(w_param) })
    } else if id == WM_ERASEBKGND {
        Ok(WindowMessage::EraseBackground { dc: w_param })
    } else if id == WM_SHOWWINDOW {
        Ok(WindowMessage::ShowWindow { shown: w_param, status: l_param })
    } else if id == WM_ACTIVATEAPP {
        Ok(WindowMessage::ActivateApp { activated: w_param, thread: l_param })
    } else if id == WM_SETCURSOR {
        { let b = word_bits(l_param); Ok(WindowMessage::SetCursor { window: w_param, hit_test: low16(b), trigger_message: high16(b) }) }
    } else if id == WM_MOUSEACTIVATE {
        Ok(WindowMessage::MouseActivate { top_window: w_param, activation: l_param })
    } else if id == WM_GETMINMAXINFO {
        Ok(WindowMessage::GetMinMaxInfo { data: addr_of_word(word_bits(l_param)) })
    } else if id == WM_WINDOWPOSCHANGING {
        Ok(WindowMessage::WindowPosChanging { data: addr_of_word(word_bits(l_param)) })
    } else if id == WM_WINDOWPOSCHANGED {
        Ok(WindowMessage::WindowPosChanged { data: addr_of_word(word_bits(l_param)) })
    } else if id == WM_STYLECHANGING {
        match gwl_style_from_word(w_param) {
            Some(st) => Ok(WindowMessage::StyleChanging { style: st, data: addr_of_word(word_bits(l_param)) }),
            None => Err(DecodeError::InvalidEnumValue { event: raw }),
        }
    } else if id == WM_STYLECHANGED {
        match gwl_style_from_word(w_param) {
            Some(st) => Ok(WindowMessage::StyleChanged { style: st, data: addr_of_word(word_bits(l_param)) }),
            None => Err(DecodeError::InvalidEnumValue { event: raw }),
        }
    } else if id == WM_GETICON {
        match icon_size_from_word(w_param) {
            Some(sz) => Ok(WindowMessage::GetIcon { size: sz, dpi: l_param }),
            None => Err(DecodeError::InvalidEnumValue { event: raw }),
        }
    } else if id == WM_SETICON {
        match icon_size_from_word(w_param) {
            Some(sz) => Ok(WindowMessage::SetIcon { size: sz, icon: word_bits(l_param) }),
            None => Err(DecodeError::InvalidEnumValue { event: raw }),
        }
    } else if id == WM_NCCALCSIZE {
        if w_param != 0 {
            Ok(WindowMessage::NcCalcSize { params: NcSizeParams::ValidClientArea { data: addr_of_word(word_bits(l_param)) } })
        } else {
            Ok(WindowMessage::NcCalcSize { params: NcSizeParams::Rect { data: addr_of_word(word_bits(l_param)) } })
        }
    } else if id == WM_NCHITTEST {
        Ok(WindowMessage::NcHitTest { pos: pos_of_word(l_param) })
    } else if id == WM_NCPAINT {
        Ok(WindowMessage::NcPaint { update_region: w_param })
    } else if id == WM_NCACTIVATE {
        Ok(WindowMessage::NcActivate { update_icon: w_param, update_region: l_param })
    } else if id == WM_NCMOUSEMOVE {
        Ok(WindowMessage::NcMouseMove { hit_test: w_param, pos: pos_of_word(l_param) })
    } else if id == WM_NCUAHDRAWCAPTION {
        Ok(WindowMessage::NcUahDrawCaption { w: w_param, l: l_param })
    } else if id == WM_NCUAHDRAWFRAME {
        Ok(WindowMessage::NcUahDrawFrame { w: w_param, l: l_param })
    } else if id == WM_KEYDOWN {
        Ok(WindowMessage::KeyDown { key_code: w_param, info: KeyState::decode(low32(word_bits(l_param))) })
    } else if id == WM_KEYUP {
        Ok(WindowMessage::KeyUp { key_code: w_param, info: KeyState::decode(low32(word_bits(l_param))) })
    } else if id == WM_SYSKEYDOWN {
        Ok(WindowMessage::SysKeyDown { key_code: w_param, info: KeyState::decode(low32(word_bits(l_param))) })
    } else if id == WM_SYSKEYUP {
        Ok(WindowMessage::SysKeyUp { key_code: w_param, info: KeyState::decode(low32(word_bits(l_param))) })
    } else if id == WM_MOUSEMOVE {
        Ok(WindowMessage::MouseMove { modifiers: w_param, pos: pos_of_word(l_param) })
    } else if id == WM_LBUTTONDOWN {
        Ok(WindowMessage::LButtonDown { modifiers: w_param, pos: pos_of_word(l_param) })
    } else if id == WM_LBUTTONUP {
        Ok(WindowMessage::LButtonUp { modifiers: w_param, pos: pos_of_word(l_param) })
    } else if id == WM_LBUTTONDBLCLK {
        Ok(WindowMessage::LButtonDblClk { modifiers: w_param, pos: pos_of_word(l_param) })
    } else if id == WM_RBUTTONDOWN {
        Ok(WindowMessage::RButtonDown { modifiers: w_param, pos: pos_of_word(l_param) })
    } else if id == WM_RBUTTONUP {
        Ok(WindowMessage::RButtonUp { modifiers: w_param, pos: pos_of_word(l_param) })
    } else if id == WM_RBUTTONDBLCLK {
        Ok(WindowMessage::RButtonDblClk { modifiers: w_param, pos: pos_of_word(l_param) })
    } else if id == WM_MBUTTONDOWN {
        Ok(WindowMessage::MButtonDown { modifiers: w_param, pos: pos_of_word(l_param) })
    } else if id == WM_MBUTTONUP {
        Ok(WindowMessage::MButtonUp { modifiers: w_param, pos: pos_of_word(l_param) })
    } else if id == WM_MBUTTONDBLCLK {
        Ok(WindowMessage::MButtonDblClk { modifiers: w_param, pos: pos_of_word(l_param) })
    } else if id == WM_MOUSEWHEEL {
        Ok(WindowMessage::MouseWheel { modifiers: low16(w_param), delta: high16(w_param), pos: pos_of_word(l_param) })
    } else if id == WM_XBUTTONDOWN {
        Ok(WindowMessage::XButtonDown { modifiers: low16(w_param), button: high16(w_param), pos: pos_of_word(l_param) })
    } else if id == WM_XBUTTONUP {
        Ok(WindowMessage::XButtonUp { modifiers: low16(w_param), button: high16(w_param), pos: pos_of_word(l_param) })
    } else if id == WM_XBUTTONDBLCLK {
        Ok(WindowMessage::XButtonDblClk { modifiers: low16(w_param), button: high16(w_param), pos: pos_of_word(l_param) })
    } else if id == WM_MOUSEHWHEEL {
        Ok(WindowMessage::MouseHWheel { modifiers: low16(w_param), delta: high16(w_param), pos: pos_of_word(l_param) })
    } else if id == WM_CAPTURECHANGED {
        Ok(WindowMessage::CaptureChanged { window: word_bits(l_param) })
    } else if id == WM_POWERBROADCAST {
        match power_event_from_word(w_param) {
            Some(ev) => Ok(WindowMessage::PowerBroadcast { event: ev, data: addr_of_word(word_bits(l_param)) }),
            None => Err(DecodeError::InvalidEnumValue { event: raw }),
        }
    } else if id == WM_IME_SETCONTEXT {
        Ok(WindowMessage::ImeSetContext { active: w_param, display_options: l_param })
    } else if id == WM_IME_NOTIFY {
        Ok(WindowMessage::ImeNotify { window: w_param, command: l_param })
    } else if id == WM_MOUSEHOVER {
        Ok(WindowMessage::MouseHover { modifiers: w_param, pos: pos_of_word(l_param) })
    } else {
        match unit_message(id) {
            Some(m) => Ok(m),
            None => Ok(WindowMessage::Unknown(raw)),
        }
    }
}

/// Law: a system-band identifier absent from the known table decodes to
/// `Unknown` carrying the exact input triple unchanged.
pub proof fn lemma_unknown_carries_triple(id: u32, w: usize, l: isize)
    requires
        id < WM_USER,
        !is_known_system_id(id),
    ensures
        spec_decode_system(id, w, l) == Result::<WindowMessage, DecodeError>::Ok(
            WindowMessage::Unknown(RawEvent { msg: id, w_param: w, l_param: l }),
        ),
{
}

/// Law: an identifier inside the known table never decodes to `Unknown`,
/// whatever the parameter words hold.
pub proof fn lemma_known_never_unknown(id: u32, w: usize, l: isize)
    requires
        is_known_system_id(id),
    ensures
        !(spec_decode_system(id, w, l) matches Ok(WindowMessage::Unknown(_))),
{
}

/// When an enumerated sub-field of a recognized tag lies outside its closed
/// set: the resize kind of `WM_SIZE`, the activation state of `WM_ACTIVATE`,
/// the style target of `WM_STYLECHANGING` and `WM_STYLECHANGED`, the icon
/// kind of `WM_GETICON` and `WM_SETICON`, or the power-broadcast kind of
/// `WM_POWERBROADCAST`.
pub open spec fn spec_invalid_enum(id: u32, w: usize) -> bool {
    ||| id == WM_SIZE && spec_window_resizing(w) is None
    ||| id == WM_ACTIVATE && spec_window_activation(spec_low16(w)) is None
    ||| (id == WM_STYLECHANGING || id == WM_STYLECHANGED) && spec_gwl_style(w) is None
    ||| (id == WM_GETICON || id == WM_SETICON) && spec_icon_size(w) is None
    ||| id == WM_POWERBROADCAST && spec_power_event(w) is None
}

/// Law: decoding fails exactly when an enumerated sub-field is out of
/// range, and the error then carries the raw triple untouched; every other
/// system-band triple decodes to a typed message.
pub proof fn lemma_err_iff_invalid_enum(id: u32, w: usize, l: isize)
    ensures
        (spec_decode_system(id, w, l) is Err) <==> spec_invalid_enum(id, w),
        spec_decode_system(id, w, l) is Err ==> spec_decode_system(id, w, l)
            == Result::<WindowMessage, DecodeError>::Err(
            DecodeError::InvalidEnumValue { event: RawEvent { msg: id, w_param: w, l_param: l } },
        ),
{
}

} // verus!
