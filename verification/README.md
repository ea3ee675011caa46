# icy_ui

The platform-independent core of the Icy UI toolkit, written in Verus: every
function in `src/` carries a contract that Verus proves.

## Layout

- `src/` — the verified library.
  - `accessibility`, `widget::operation::accessibility`: accessibility state,
    node identifiers, and the tree walks that collect, find and navigate
    accessibility nodes.
  - `widget::operation::focusable`, `runtime::widget::operation`: keyboard
    focus navigation (next, previous, filtered by focus level) and the
    operations a task can ask for.
  - `shell`, `event`, `input_method`, `window`: what a widget reports back
    while it handles an event.
  - `menu`, `runtime::context_menu`, `keyboard`: application and context menus,
    their stable identifiers and shortcuts.
  - `dnd`, `runtime::dnd`, `clipboard`: drag and drop data and requests,
    clipboard formats per platform.
  - `macos`, `windows`, `winit`: the decisions of the platform shells — drag
    operation masks, pasteboard and OLE formats, drop events, the event loop's
    control flow, Wayland drag and drop, and drag gesture detection.
  - `alignment`, `layout_direction`, `theme`, `text`: layout direction and
    alignment resolution, theme rules (spacing, layers, modes), and string
    helpers.
  Each module states its laws as public proof functions named `law_*`.
- `tests/` — tests of the library on concrete values.
- `app/` — ordinary Rust around the library: colors, geometry and everything
  else in floating point, themes and their loading from RON files,
  process-wide settings, and AccessKit nodes.
