//! The client side's data: the registration body it sends, the properties
//! of the account page, and the state updates of its text inputs.
use vstd::prelude::*;
use crate::account::Account;

verus! {

/// The body of a registration or login request, as the client builds it.
pub struct NewAccount {
    pub username: String,
    pub passw: String,
}

impl NewAccount {
    pub fn new(username: String, passw: String) -> (r: NewAccount)
        ensures
            r.username == username,
            r.passw == passw,
    {
        NewAccount { username, passw }
    }

    /// The credentials as the server reads them.
    pub fn into_account(self) -> (r: Account)
        ensures
            r.username == self.username,
            r.passw == self.passw,
    {
        Account { username: self.username, passw: self.passw }
    }
}

/// The properties of the page that shows the account with this id.
#[derive(Clone, Copy, Debug, PartialEq, Eq, Structural)]
pub struct AccountPageProperties {
    pub id: i32,
}

/// A text input whose entered text lives in a buffer that its owner holds.
pub struct TextField;

/// The updates of a `TextField`.
pub enum TextFieldMessage {
    /// The input's text changed to this value.
    ValueUpdate(String),
}

impl TextField {
    /// Applies `msg` to the buffer; the input is then drawn again, which the
    /// result, always `true`, asks for.
    pub fn update(&mut self, text_buffer: &mut String, msg: TextFieldMessage) -> (r: bool)
        ensures
            match msg {
                TextFieldMessage::ValueUpdate(v) => final(text_buffer)@ == v@,
            },
            r,
    {
        match msg {
            TextFieldMessage::ValueUpdate(v) => {
                *text_buffer = v;
            },
        }
        true
    }
}

/// The search input of the main page.
pub struct Searchbar;

/// The updates of a `Searchbar`.
pub enum SearchBarMessage {
    /// The input's text changed to this value.
    ValueUpdate(String),
}

impl Searchbar {
    /// Applies `msg` to the buffer; the input is then drawn again, which the
    /// result, always `true`, asks for.
    pub fn update(&mut self, text_buffer: &mut String, msg: SearchBarMessage) -> (r: bool)
        ensures
            match msg {
                SearchBarMessage::ValueUpdate(v) => final(text_buffer)@ == v@,
            },
            r,
    {
        match msg {
            SearchBarMessage::ValueUpdate(v) => {
                *text_buffer = v;
            },
        }
        true
    }
}

} // verus!
