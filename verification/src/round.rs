use vstd::prelude::*;

verus! {

/// The round counter and the text of the reply under construction.
pub struct ConversationRoundManager {
    current_round: i32,
    raw_content: String,
}

impl ConversationRoundManager {
    /// The round number.
    pub closed spec fn round(&self) -> int {
        self.current_round as int
    }

    /// The text accumulated so far.
    pub closed spec fn content(&self) -> Seq<char> {
        self.raw_content@
    }

    /// A manager at round zero with no text.
    pub fn new() -> (m: Self)
        ensures
            m.round() == 0,
            m.content() == Seq::<char>::empty(),
    {
        ConversationRoundManager { current_round: 0, raw_content: String::new() }
    }

    /// Back to round zero with no text.
    pub fn initialize_new_conversation(&mut self)
        ensures
            final(self).round() == 0,
            final(self).content() == Seq::<char>::empty(),
    {
        self.current_round = 0;
        self.raw_content = String::new();
    }

    /// Replaces the text and returns it.
    pub fn update_content(&mut self, content: String) -> (r: String)
        ensures
            final(self).content() == content@,
            final(self).round() == old(self).round(),
            r@ == content@,
    {
        self.raw_content = content;
        self.raw_content.clone()
    }

    /// Advances the round and returns the new round number.
    pub fn start_new_round(&mut self) -> (r: i32)
        requires
            old(self).round() < i32::MAX,
        ensures
            final(self).round() == old(self).round() + 1,
            final(self).content() == old(self).content(),
            r as int == final(self).round(),
    {
        self.current_round = self.current_round + 1;
        self.current_round
    }

    /// Appends to the text and returns the whole text.
    pub fn append_content(&mut self, content: &str) -> (r: String)
        ensures
            final(self).content() == old(self).content() + content@,
            final(self).round() == old(self).round(),
            r@ == final(self).content(),
    {
        self.raw_content.append(content);
        self.raw_content.clone()
    }

    /// The text as shown.
    pub fn get_display_content(&self) -> (r: String)
        ensures
            r@ == self.content(),
    {
        self.raw_content.clone()
    }

    /// The text of the current round.
    pub fn get_current_round_content(&self) -> (r: String)
        ensures
            r@ == self.content(),
    {
        self.raw_content.clone()
    }

    /// The raw text.
    pub fn get_raw_content(&self) -> (r: String)
        ensures
            r@ == self.content(),
    {
        self.raw_content.clone()
    }

    /// The round number.
    pub fn get_current_round(&self) -> (r: i32)
        ensures
            r as int == self.round(),
    {
        self.current_round
    }

    /// Clears the text and keeps the round.
    pub fn clear_content(&mut self)
        ensures
            final(self).content() == Seq::<char>::empty(),
            final(self).round() == old(self).round(),
    {
        self.raw_content = String::new();
    }
}

} // verus!
