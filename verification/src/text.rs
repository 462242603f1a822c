//! The exact texts the shell displays: the window title, the button labels,
//! and the two dialogs.

use vstd::prelude::*;

verus! {

/// The fixed window title: a lock emoji and the program name.
pub open spec fn window_title() -> Seq<char> {
    "\u{1f510} Simple Password Generator"@
}

/// The fixed window title.
pub fn window_title_str() -> (r: &'static str)
    ensures
        r@ == window_title(),
{
    "\u{1f510} Simple Password Generator"
}

/// The label of the copy button.
pub fn copy_button_label() -> (r: &'static str)
    ensures
        r@ == "Copy password"@,
{
    "Copy password"
}

/// The label of the generate button.
pub fn generate_button_label() -> (r: &'static str)
    ensures
        r@ == "Generate new password"@,
{
    "Generate new password"
}

/// The label of the About button.
pub fn about_button_label() -> (r: &'static str)
    ensures
        r@ == "About"@,
{
    "About"
}

/// The title of the dialog confirming a copy to the clipboard.
pub open spec fn copy_dialog_title() -> Seq<char> {
    "Copied to clipboard"@
}

/// The title of the dialog confirming a copy to the clipboard.
pub fn copy_dialog_title_str() -> (r: &'static str)
    ensures
        r@ == copy_dialog_title(),
{
    "Copied to clipboard"
}

/// The body of the dialog confirming a copy to the clipboard: the fixed
/// prefix followed by the copied password.
pub open spec fn copy_confirmation(password: Seq<char>) -> Seq<char> {
    "Copied to clipboard "@ + password
}

/// The title of the About dialog.
pub open spec fn about_title() -> Seq<char> {
    "About"@
}

/// The title of the About dialog.
pub fn about_title_str() -> (r: &'static str)
    ensures
        r@ == about_title(),
{
    "About"
}

/// The body of the About dialog: author, contact address, and home page.
pub open spec fn about_text() -> Seq<char> {
    "\u{a9} Victor Vinogradov 2022 \nvict.programmer@gmail.com \nhttps://github.com/vict-programmer"@
}

/// The body of the About dialog.
pub fn about_text_str() -> (r: &'static str)
    ensures
        r@ == about_text(),
{
    "\u{a9} Victor Vinogradov 2022 \nvict.programmer@gmail.com \nhttps://github.com/vict-programmer"
}

/// Relies on `String::push_str`: it appends the given slice at the end, so
/// the result is the two parts in order.
#[verifier::external_body]
pub(crate) fn concat_str(a: &str, b: &str) -> (r: String)
    ensures
        r@ == a@ + b@,
{
    let mut r = a.to_owned();
    r.push_str(b);
    r
}

/// Builds the body of the dialog confirming a copy to the clipboard.
pub fn copy_confirmation_message(password: &str) -> (r: String)
    ensures
        r@ == copy_confirmation(password@),
{
    concat_str("Copied to clipboard ", password)
}

} // verus!
