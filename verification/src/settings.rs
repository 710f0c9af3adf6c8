//! The client's settings: the model to ask and whether the notes go along.

use vstd::prelude::*;

verus! {

/// The models that can be selected, in the order in which they are offered.
pub open spec fn available_models() -> Seq<Seq<char>> {
    seq!["gpt-4o"@, "chatgpt-4o-latest"@, "gpt-4o-mini"@]
}

/// The names of the models, in the order of `available_models`.
pub fn model_names() -> (names: Vec<&'static str>)
    ensures
        names@.len() == available_models().len(),
        forall|i: int| 0 <= i < names@.len() ==> (#[trigger] names@[i])@ == available_models()[i],
{
    let mut names: Vec<&'static str> = Vec::new();
    names.push("gpt-4o");
    names.push("chatgpt-4o-latest");
    names.push("gpt-4o-mini");
    names
}

/// The settings of the client.
#[derive(Debug)]
pub struct Settings {
    /// Name of the model that prompts are sent to.
    pub model: String,
    /// Whether the notes are sent along with a prompt.
    pub use_memory: bool,
}

impl Default for Settings {
    /// The settings of a client that has none stored: the smallest model, with
    /// the notes in use.
    fn default() -> (settings: Self)
        ensures
            settings.model@ == "gpt-4o-mini"@,
            settings.use_memory,
    {
        Settings { model: "gpt-4o-mini".to_owned(), use_memory: true }
    }
}

/// What the stored settings turned out to be.
#[derive(Debug)]
pub enum Loaded {
    /// Settings in the current form.
    Current(Settings),
    /// Settings in the old form, which named a model only. They were brought
    /// to the current form and are to be stored again.
    Migrated(Settings),
    /// Neither form could be read.
    Unreadable,
}

impl Settings {
    /// Settings brought over from the old form: the stored model, with the
    /// notes in use.
    pub fn migrated(model: String) -> (settings: Self)
        ensures
            settings.model == model,
            settings.use_memory,
    {
        Settings { model, use_memory: true }
    }

    /// Decides what was loaded from the two readings of the stored text:
    /// `current` is the text read in the current form, `legacy_model` the model
    /// of the text read in the old form. The current form wins; the old form
    /// is migrated; a text that is neither is unreadable.
    pub fn from_parsed(current: Option<Settings>, legacy_model: Option<String>) -> (loaded: Loaded)
        ensures
            current matches Some(settings) ==> loaded == Loaded::Current(settings),
            current.is_none() && legacy_model.is_some() ==> (loaded matches Loaded::Migrated(settings)
                && settings.model == legacy_model.unwrap() && settings.use_memory),
            current.is_none() && legacy_model.is_none() ==> loaded == Loaded::Unreadable,
    {
        match current {
            Some(settings) => Loaded::Current(settings),
            None => match legacy_model {
                Some(model) => Loaded::Migrated(Settings::migrated(model)),
                None => Loaded::Unreadable,
            },
        }
    }

    /// Selects the model with the number `selection`, counted from one. A
    /// number that names no model changes nothing.
    pub fn select_model(&mut self, selection: usize) -> (chosen: bool)
        ensures
            chosen == (1 <= selection <= available_models().len()),
            chosen ==> final(self).model@ == available_models()[selection - 1],
            !chosen ==> final(self).model == old(self).model,
            final(self).use_memory == old(self).use_memory,
    {
        let names = model_names();
        if selection > 0 && selection <= names.len() {
            self.model = names[selection - 1].to_owned();
            true
        } else {
            false
        }
    }

    /// Switches the use of the notes on or off.
    pub fn toggle_memory(&mut self)
        ensures
            final(self).use_memory == !old(self).use_memory,
            final(self).model == old(self).model,
    {
        self.use_memory = !self.use_memory;
    }
}

} // verus!
