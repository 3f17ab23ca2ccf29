//! The looks of the components: which classes, colours and labels each
//! variant, size and state of a component gets.

use crate::text::join;
use vstd::prelude::*;
use vstd::string::StringExecFns;

verus! {

/// The kinds of buttons.
#[derive(Clone, Copy, Debug, PartialEq, Eq, Structural)]
pub enum ButtonVariant {
    Primary,
    Secondary,
    Outline,
    Danger,
    Warning,
    Borderless,
}

/// The sizes of buttons.
#[derive(Clone, Copy, Debug, PartialEq, Eq, Structural)]
pub enum ButtonSize {
    Small,
    Medium,
    Large,
    XLarge,
}

/// The kinds of dialogs.
#[derive(Clone, Copy, Debug, PartialEq, Eq, Structural)]
pub enum DialogType {
    Info,
    Warning,
    Danger,
}

/// The kinds of toasts.
#[derive(Clone, Copy, Debug, PartialEq, Eq, Structural)]
pub enum ToastType {
    Success,
    Warning,
    Info,
    Error,
}

/// The groups of components that the gallery shows.
#[derive(Clone, Copy, Debug, PartialEq, Eq, Structural)]
pub enum ComponentCategory {
    Icons,
    Buttons,
    Dialog,
    Toast,
    Toggle,
}

impl Default for ButtonVariant {
    fn default() -> (variant: ButtonVariant)
        ensures
            variant == ButtonVariant::Primary,
    {
        ButtonVariant::Primary
    }
}

impl Default for ButtonSize {
    fn default() -> (size: ButtonSize)
        ensures
            size == ButtonSize::Medium,
    {
        ButtonSize::Medium
    }
}

impl Default for DialogType {
    fn default() -> (kind: DialogType)
        ensures
            kind == DialogType::Info,
    {
        DialogType::Info
    }
}

impl Default for ToastType {
    fn default() -> (kind: ToastType)
        ensures
            kind == ToastType::Success,
    {
        ToastType::Success
    }
}

impl Default for ComponentCategory {
    fn default() -> (category: ComponentCategory)
        ensures
            category == ComponentCategory::Icons,
    {
        ComponentCategory::Icons
    }
}

impl ButtonSize {
    /// The padding of a button of this size.
    pub open spec fn padding(self) -> Seq<char> {
        match self {
            ButtonSize::Small => "py-4 px-6"@,
            ButtonSize::Medium => "py-6 px-9"@,
            ButtonSize::Large => "py-8 px-12"@,
            ButtonSize::XLarge => "py-10 px-16"@,
        }
    }

    /// The size of the text of a button of this size.
    pub open spec fn text(self) -> Seq<char> {
        match self {
            ButtonSize::Small => "text-2xl"@,
            ButtonSize::Medium => "text-4xl"@,
            ButtonSize::Large => "text-5xl"@,
            ButtonSize::XLarge => "text-6xl"@,
        }
    }

    /// The padding of a button of this size that holds an icon only.
    pub open spec fn icon_padding(self) -> Seq<char> {
        match self {
            ButtonSize::Small => "p-4"@,
            ButtonSize::Medium => "p-6"@,
            ButtonSize::Large => "p-8"@,
            ButtonSize::XLarge => "p-10"@,
        }
    }

    /// The padding of a button of this size.
    pub fn padding_class(&self) -> (class: &'static str)
        ensures
            class@ == self.padding(),
    {
        match self {
            ButtonSize::Small => "py-4 px-6",
            ButtonSize::Medium => "py-6 px-9",
            ButtonSize::Large => "py-8 px-12",
            ButtonSize::XLarge => "py-10 px-16",
        }
    }

    /// The size of the text of a button of this size.
    pub fn text_class(&self) -> (class: &'static str)
        ensures
            class@ == self.text(),
    {
        match self {
            ButtonSize::Small => "text-2xl",
            ButtonSize::Medium => "text-4xl",
            ButtonSize::Large => "text-5xl",
            ButtonSize::XLarge => "text-6xl",
        }
    }

    /// The padding of a button of this size that holds an icon only.
    pub fn icon_padding_class(&self) -> (class: &'static str)
        ensures
            class@ == self.icon_padding(),
    {
        match self {
            ButtonSize::Small => "p-4",
            ButtonSize::Medium => "p-6",
            ButtonSize::Large => "p-8",
            ButtonSize::XLarge => "p-10",
        }
    }
}

impl ButtonVariant {
    /// The colours of a button of this kind.
    pub open spec fn base(self) -> Seq<char> {
        match self {
            ButtonVariant::Primary => "bg-[#4EC6F0] text-[#191C1D] border-[#4EC6F0]"@,
            ButtonVariant::Secondary => "bg-[#F6F7F5] text-[#191C1D] border-[#F6F7F5]"@,
            ButtonVariant::Outline => "bg-transparent text-[#F6F7F5] border-[#F6F7F5]"@,
            ButtonVariant::Danger => "bg-[#FF5449] text-[#191C1D] border-[#FF5449]"@,
            ButtonVariant::Warning => "bg-[#FF8D44] text-[#191C1D] border-[#FF8D44]"@,
            ButtonVariant::Borderless => "bg-transparent text-[#F6F7F5] border-transparent"@,
        }
    }

    /// Whether a button of this kind is filled with a colour.
    pub open spec fn filled(self) -> bool {
        !(self == ButtonVariant::Outline || self == ButtonVariant::Borderless)
    }

    /// The colours of a disabled button of this kind: filled kinds turn grey
    /// all over, the others keep their transparent ground.
    pub open spec fn disabled(self) -> Seq<char> {
        if self.filled() {
            "disabled:bg-[#444748] disabled:text-[#5C5F5F] disabled:border-[#444748]"@
        } else {
            "disabled:text-[#5C5F5F] disabled:border-[#5C5F5F]"@
        }
    }

    /// The colours of a button of this kind.
    pub fn base_class(&self) -> (class: &'static str)
        ensures
            class@ == self.base(),
    {
        match self {
            ButtonVariant::Primary => "bg-[#4EC6F0] text-[#191C1D] border-[#4EC6F0]",
            ButtonVariant::Secondary => "bg-[#F6F7F5] text-[#191C1D] border-[#F6F7F5]",
            ButtonVariant::Outline => "bg-transparent text-[#F6F7F5] border-[#F6F7F5]",
            ButtonVariant::Danger => "bg-[#FF5449] text-[#191C1D] border-[#FF5449]",
            ButtonVariant::Warning => "bg-[#FF8D44] text-[#191C1D] border-[#FF8D44]",
            ButtonVariant::Borderless => "bg-transparent text-[#F6F7F5] border-transparent",
        }
    }

    /// The colours of a disabled button of this kind.
    pub fn disabled_class(&self) -> (class: &'static str)
        ensures
            class@ == self.disabled(),
    {
        match self {
            ButtonVariant::Primary
            | ButtonVariant::Secondary
            | ButtonVariant::Danger
            | ButtonVariant::Warning => {
                "disabled:bg-[#444748] disabled:text-[#5C5F5F] disabled:border-[#444748]"
            },
            ButtonVariant::Outline | ButtonVariant::Borderless => {
                "disabled:text-[#5C5F5F] disabled:border-[#5C5F5F]"
            },
        }
    }
}

/// A text with a word behind it, a blank between them.
pub open spec fn with_word(text: Seq<char>, word: Seq<char>) -> Seq<char> {
    text + " "@ + word
}

fn add_word(text: &mut String, word: &str)
    ensures
        final(text)@ == with_word(old(text)@, word@),
{
    text.append(" ");
    text.append(word);
}

/// The shape of the corners of a button.
pub open spec fn rounded(rounded_full: bool) -> Seq<char> {
    if rounded_full {
        "rounded-full"@
    } else {
        "rounded-2xl"@
    }
}

/// The width of a button; the class is empty for a button as wide as its
/// content.
pub open spec fn width(full_width: bool) -> Seq<char> {
    if full_width {
        "w-full"@
    } else {
        ""@
    }
}

/// The classes of a button: the fixed ones, then those of its kind, of its
/// kind when disabled, of its size, of its text, of its corners and of its
/// width, then the classes of the caller, each behind one blank.
pub open spec fn button_classes(
    variant: ButtonVariant,
    size: ButtonSize,
    full_width: bool,
    rounded_full: bool,
    class: Seq<char>,
) -> Seq<char> {
    with_word(
        with_word(
            with_word(
                with_word(
                    with_word(
                        with_word(
                            with_word(
                                "flex items-center justify-center border-2 transition-all"@,
                                variant.base(),
                            ),
                            variant.disabled(),
                        ),
                        size.padding(),
                    ),
                    size.text(),
                ),
                rounded(rounded_full),
            ),
            width(full_width),
        ),
        class,
    )
}

/// The classes of a button.
pub fn button_class(
    variant: ButtonVariant,
    size: ButtonSize,
    full_width: bool,
    rounded_full: bool,
    class: &str,
) -> (classes: String)
    ensures
        classes@ == button_classes(variant, size, full_width, rounded_full, class@),
{
    let mut classes = String::from_str("flex items-center justify-center border-2 transition-all");
    add_word(&mut classes, variant.base_class());
    add_word(&mut classes, variant.disabled_class());
    add_word(&mut classes, size.padding_class());
    add_word(&mut classes, size.text_class());
    add_word(&mut classes, if rounded_full { "rounded-full" } else { "rounded-2xl" });
    add_word(&mut classes, if full_width { "w-full" } else { "" });
    add_word(&mut classes, class);
    classes
}

/// The classes of a button that holds an icon only: the fixed ones, then
/// those of its kind, of its kind when disabled and of its size, then the
/// classes of the caller, each behind one blank.
pub open spec fn icon_button_classes(
    variant: ButtonVariant,
    size: ButtonSize,
    class: Seq<char>,
) -> Seq<char> {
    with_word(
        with_word(
            with_word(
                with_word(
                    "flex items-center justify-center rounded-full border-2 transition-all"@,
                    variant.base(),
                ),
                variant.disabled(),
            ),
            size.icon_padding(),
        ),
        class,
    )
}

/// The classes of a button that holds an icon only.
pub fn icon_button_class(variant: ButtonVariant, size: ButtonSize, class: &str) -> (classes:
    String)
    ensures
        classes@ == icon_button_classes(variant, size, class@),
{
    let mut classes = String::from_str(
        "flex items-center justify-center rounded-full border-2 transition-all",
    );
    add_word(&mut classes, variant.base_class());
    add_word(&mut classes, variant.disabled_class());
    add_word(&mut classes, size.icon_padding_class());
    add_word(&mut classes, class);
    classes
}

/// The text to use for one that may be left empty.
pub open spec fn or_default(given: Seq<char>, default: Seq<char>) -> Seq<char> {
    if given.len() == 0 {
        default
    } else {
        given
    }
}

fn given_or<'a>(given: &'a str, default: &'a str) -> (text: &'a str)
    ensures
        text@ == or_default(given@, default@),
{
    if given.unicode_len() == 0 {
        default
    } else {
        given
    }
}

/// The style of a navigation button: its background, which is dark where
/// none is given.
pub fn nav_button_style(background: &str) -> (style: String)
    ensures
        style@ == "background-color: "@ + or_default(background@, "#191C1D"@),
{
    join("background-color: ", given_or(background, "#191C1D"))
}

impl DialogType {
    /// The colour of the card of a dialog of this kind.
    pub open spec fn background(self) -> Seq<char> {
        match self {
            DialogType::Info => "#323837"@,
            DialogType::Warning => "#FF8D44"@,
            DialogType::Danger => "#FF5449"@,
        }
    }

    /// The colour of the card of a dialog of this kind.
    pub fn background_color(&self) -> (color: &'static str)
        ensures
            color@ == self.background(),
    {
        match self {
            DialogType::Info => "#323837",
            DialogType::Warning => "#FF8D44",
            DialogType::Danger => "#FF5449",
        }
    }
}

/// The state of the ground behind a dialog: shown, at once or after a
/// delay, or hidden.
pub open spec fn overlay_state(visible: bool, delay: bool) -> Seq<char> {
    if visible {
        with_word("opacity-100 backdrop-blur-md"@, if delay {
            "delay-500"@
        } else {
            ""@
        })
    } else {
        "opacity-0 pointer-events-none delay-200"@
    }
}

/// The classes of the ground behind a dialog.
pub fn dialog_overlay_class(visible: bool, delay: bool) -> (classes: String)
    ensures
        classes@ == with_word(
            "fixed top-0 left-0 z-50 flex flex-col justify-end h-screen w-screen bg-black bg-opacity-60 transition-all ease-in duration-150"@,
            overlay_state(visible, delay),
        ),
{
    let mut classes = String::from_str(
        "fixed top-0 left-0 z-50 flex flex-col justify-end h-screen w-screen bg-black bg-opacity-60 transition-all ease-in duration-150",
    );
    if visible {
        let mut state = String::from_str("opacity-100 backdrop-blur-md");
        add_word(&mut state, if delay { "delay-500" } else { "" });
        add_word(&mut classes, state.as_str());
    } else {
        add_word(&mut classes, "opacity-0 pointer-events-none delay-200");
    }
    classes
}

/// The classes of the card of a dialog: the fixed ones, then its place,
/// below the screen while it is hidden or its dialog is not shown, then its
/// padding.
pub fn dialog_card_class(hide_card: bool, visible: bool, remove_padding: bool) -> (classes: String)
    ensures
        classes@ == with_word(
            with_word(
                "relative w-full flex flex-col items-center rounded-t-3xl transition-all ease-in duration-300"@,
                if hide_card || !visible {
                    "-bottom-[80%]"@
                } else {
                    "delay-100 bottom-0"@
                },
            ),
            if remove_padding {
                "py-0"@
            } else {
                "py-16"@
            },
        ),
{
    let mut classes = String::from_str(
        "relative w-full flex flex-col items-center rounded-t-3xl transition-all ease-in duration-300",
    );
    add_word(&mut classes, if hide_card || !visible { "-bottom-[80%]" } else { "delay-100 bottom-0" });
    add_word(&mut classes, if remove_padding { "py-0" } else { "py-16" });
    classes
}

/// The style of the card of a dialog of the given kind.
pub fn dialog_card_style(dialog_type: DialogType) -> (style: String)
    ensures
        style@ == "background-color: "@ + dialog_type.background() + ";"@,
{
    let mut style = join("background-color: ", dialog_type.background_color());
    style.append(";");
    style
}

impl ToastType {
    /// The colour of a toast of this kind.
    pub open spec fn background(self) -> Seq<char> {
        match self {
            ToastType::Success => "#3DFFC5"@,
            ToastType::Warning => "#FAC800"@,
            ToastType::Info => "#F6F7F5"@,
            ToastType::Error => "#FF5449"@,
        }
    }

    /// The colour of a toast of this kind.
    pub fn background_color(&self) -> (color: &'static str)
        ensures
            color@ == self.background(),
    {
        match self {
            ToastType::Success => "#3DFFC5",
            ToastType::Warning => "#FAC800",
            ToastType::Info => "#F6F7F5",
            ToastType::Error => "#FF5449",
        }
    }

    /// The colour of the text of a toast, which is the same for every kind.
    pub fn text_color(&self) -> (color: &'static str)
        ensures
            color@ == "#191C1D"@,
    {
        "#191C1D"
    }
}

/// The classes of a toast, shown or hidden.
pub fn toast_class(visible: bool) -> (classes: String)
    ensures
        classes@ == "fixed ease-linear w-[92%] left-8 bottom-8 "@ + (if visible {
            "duration-100 opacity-100 pointer-events-auto"@
        } else {
            "duration-150 opacity-0 pointer-events-none"@
        }) + " flex z-30 rounded-2xl overflow-hidden"@,
{
    let mut classes = join(
        "fixed ease-linear w-[92%] left-8 bottom-8 ",
        if visible {
            "duration-100 opacity-100 pointer-events-auto"
        } else {
            "duration-150 opacity-0 pointer-events-none"
        },
    );
    classes.append(" flex z-30 rounded-2xl overflow-hidden");
    classes
}

/// The classes of the bar that runs out while a toast is shown.
pub fn toast_progress_class(visible: bool) -> (classes: String)
    ensures
        classes@ == with_word("bg-[#00A47C] absolute h-4 bottom-0 delay-150"@, if visible {
            "w-[100%] ease-linear duration-[2850ms]"@
        } else {
            "w-[0%]"@
        }),
{
    let mut classes = String::from_str("bg-[#00A47C] absolute h-4 bottom-0 delay-150");
    add_word(&mut classes, if visible { "w-[100%] ease-linear duration-[2850ms]" } else { "w-[0%]" });
    classes
}

/// The label of the side of a toggle that switches on.
pub fn toggle_on_label<'a>(on_label: &'a str) -> (label: &'a str)
    ensures
        label@ == or_default(on_label@, "Enabled"@),
{
    given_or(on_label, "Enabled")
}

/// The label of the side of a toggle that switches off.
pub fn toggle_off_label<'a>(off_label: &'a str) -> (label: &'a str)
    ensures
        label@ == or_default(off_label@, "Disabled"@),
{
    given_or(off_label, "Disabled")
}

/// The classes of one side of a toggle, which is filled while it is the side
/// that is chosen.
pub fn toggle_side_class(chosen: bool) -> (classes: String)
    ensures
        classes@
            == "w-full flex items-center justify-center text-4xl border-2 rounded-[70px] py-6 px-9 border-[#F6F7F5] "@
            + (if chosen {
            "bg-[#F6F7F5] disabled:bg-[#5C5F5F] disabled:text-[#2D3131]"@
        } else {
            "text-[#F6F7F5] disabled:bg-[#2D3131] disabled:text-[#5C5F5F]"@
        }) + " disabled:border-[#5C5F5F]"@,
{
    let mut classes = join(
        "w-full flex items-center justify-center text-4xl border-2 rounded-[70px] py-6 px-9 border-[#F6F7F5] ",
        if chosen {
            "bg-[#F6F7F5] disabled:bg-[#5C5F5F] disabled:text-[#2D3131]"
        } else {
            "text-[#F6F7F5] disabled:bg-[#2D3131] disabled:text-[#5C5F5F]"
        },
    );
    classes.append(" disabled:border-[#5C5F5F]");
    classes
}

/// The classes of one option of a group of toggles, which is filled while
/// its value is the value of the group.
pub fn toggle_option_class(value: &str, option_value: &str) -> (classes: String)
    ensures
        classes@ == with_word("flex-1 text-4xl mr-4 p-8 rounded-full"@, if value@ == option_value@ {
            "bg-[#F6F7F5]"@
        } else {
            "border border-[#C4C7C7] text-[#F6F7F5]"@
        }),
{
    let mut classes = String::from_str("flex-1 text-4xl mr-4 p-8 rounded-full");
    add_word(&mut classes, if crate::text::same_text(value, option_value) {
        "bg-[#F6F7F5]"
    } else {
        "border border-[#C4C7C7] text-[#F6F7F5]"
    });
    classes
}

impl ComponentCategory {
    /// All groups, in the order of the side bar.
    pub fn all() -> (categories: Vec<ComponentCategory>)
        ensures
            categories@ == seq![
                ComponentCategory::Icons,
                ComponentCategory::Buttons,
                ComponentCategory::Dialog,
                ComponentCategory::Toast,
                ComponentCategory::Toggle,
            ],
    {
        let mut categories: Vec<ComponentCategory> = Vec::new();
        categories.push(ComponentCategory::Icons);
        categories.push(ComponentCategory::Buttons);
        categories.push(ComponentCategory::Dialog);
        categories.push(ComponentCategory::Toast);
        categories.push(ComponentCategory::Toggle);
        assert(categories@ =~= seq![
            ComponentCategory::Icons,
            ComponentCategory::Buttons,
            ComponentCategory::Dialog,
            ComponentCategory::Toast,
            ComponentCategory::Toggle,
        ]);
        categories
    }

    /// The name of the group in the side bar.
    pub fn label(&self) -> (label: &'static str)
        ensures
            label@ == (match *self {
                ComponentCategory::Icons => "Icons"@,
                ComponentCategory::Buttons => "Buttons"@,
                ComponentCategory::Dialog => "Dialog"@,
                ComponentCategory::Toast => "Toast"@,
                ComponentCategory::Toggle => "Toggle"@,
            }),
    {
        match self {
            ComponentCategory::Icons => "Icons",
            ComponentCategory::Buttons => "Buttons",
            ComponentCategory::Dialog => "Dialog",
            ComponentCategory::Toast => "Toast",
            ComponentCategory::Toggle => "Toggle",
        }
    }

    /// The classes of the entry of a group in the side bar, which is filled
    /// while the group is the one that is shown.
    pub fn entry_class(&self, selected: ComponentCategory) -> (classes: String)
        ensures
            classes@ == with_word(
                "w-full text-left px-4 py-3 rounded-lg mb-1 text-lg transition-colors"@,
                if *self == selected {
                    "bg-[#4EC6F0] text-[#191C1D]"@
                } else {
                    "text-[#F6F7F5] hover:bg-[#444748]"@
                },
            ),
    {
        let mut classes = String::from_str(
            "w-full text-left px-4 py-3 rounded-lg mb-1 text-lg transition-colors",
        );
        add_word(&mut classes, if *self == selected {
            "bg-[#4EC6F0] text-[#191C1D]"
        } else {
            "text-[#F6F7F5] hover:bg-[#444748]"
        });
        classes
    }
}

} // verus!
