//! Template method pattern: the recipe of a caffeine beverage is fixed, the
//! steps that differ are left to the beverage, and a hook lets the beverage
//! decide whether the last step is taken at all.

use vstd::prelude::*;

verus! {

/// What a beverage fills into the recipe.
pub struct Recipe {
    /// What is said while the beverage brews.
    pub brew: Seq<char>,
    /// What is said while the condiments are added.
    pub condiments: Seq<char>,
    /// Whether the customer wants condiments.
    pub wants_condiments: bool,
}

impl Recipe {
    /// What is said while the recipe is followed: water is boiled, the
    /// beverage brews and is poured, and condiments are added if wanted.
    pub open spec fn text(self) -> Seq<char> {
        "Boiling water\n"@ + self.brew + "Pouring into cup\n"@ + if self.wants_condiments {
            self.condiments
        } else {
            Seq::empty()
        }
    }
}

pub trait CaffeineBeverageWithHook {
    /// What this beverage fills into the recipe. No step changes it.
    spec fn recipe(&self) -> Recipe;

    /// Follows the recipe from the first step to the last.
    fn prepare_recipe(&mut self) -> (said: String)
        ensures
            said@ == old(self).recipe().text(),
            final(self).recipe() == old(self).recipe(),
    {
        let mut said = self.boil_water();
        let brewed = self.brew();
        said.append(brewed.as_str());
        let poured = self.pour_in_cup();
        said.append(poured.as_str());
        if self.customer_wants_condiments() {
            let added = self.add_condiments();
            said.append(added.as_str());
        }
        said
    }

    fn brew(&mut self) -> (said: String)
        ensures
            said@ == old(self).recipe().brew,
            final(self).recipe() == old(self).recipe(),
    ;

    fn add_condiments(&mut self) -> (said: String)
        ensures
            said@ == old(self).recipe().condiments,
            final(self).recipe() == old(self).recipe(),
    ;

    fn boil_water(&mut self) -> (said: String)
        ensures
            said@ == "Boiling water\n"@,
            final(self).recipe() == old(self).recipe(),
    {
        String::from_str("Boiling water\n")
    }

    fn pour_in_cup(&mut self) -> (said: String)
        ensures
            said@ == "Pouring into cup\n"@,
            final(self).recipe() == old(self).recipe(),
    {
        String::from_str("Pouring into cup\n")
    }

    /// The hook: whether the last step of the recipe is taken.
    fn customer_wants_condiments(&mut self) -> (wants: bool)
        ensures
            wants == old(self).recipe().wants_condiments,
            final(self).recipe() == old(self).recipe(),
    ;
}

/// The lower-case form of a text, as `str::to_lowercase` gives it.
pub uninterp spec fn lowercase(text: Seq<char>) -> Seq<char>;

/// Calls `str::to_lowercase`, which maps each character to its lower-case
/// form by the tables of Unicode, whatever the locale. The contract names its
/// result and claims nothing else of it.
#[verifier::external_body]
fn to_lowercase(text: &str) -> (lowered: String)
    ensures
        lowered@ == lowercase(text@),
{
    text.to_lowercase()
}

/// Whether `text` begins with the characters of `prefix`.
pub open spec fn begins_with(text: Seq<char>, prefix: Seq<char>) -> bool {
    prefix.len() <= text.len() && text.subrange(0, prefix.len() as int) == prefix
}

/// Calls `str::starts_with` with a string as the pattern, which is true
/// exactly when the pattern is a prefix of the text.
#[verifier::external_body]
fn starts_with(text: &str, prefix: &str) -> (begins: bool)
    ensures
        begins == begins_with(text@, prefix@),
{
    text.starts_with(prefix)
}

/// Whether an answer that is in lower case already means yes: it does when it
/// begins with a `y`.
pub fn means_yes(lowered: &str) -> (yes: bool)
    ensures
        yes == (lowered@.len() > 0 && lowered@[0] == 'y'),
{
    proof {
        reveal_strlit("y");
    }
    let yes = starts_with(lowered, "y");
    proof {
        if lowered@.len() > 0 {
            assert(lowered@.subrange(0, 1)[0] == lowered@[0]);
            if lowered@[0] == 'y' {
                assert(lowered@.subrange(0, 1) =~= "y"@);
            }
        }
    }
    yes
}

/// Whether an answer means yes, in whatever case it was typed.
pub fn answers_yes(answer: &str) -> (yes: bool)
    ensures
        yes == (lowercase(answer@).len() > 0 && lowercase(answer@)[0] == 'y'),
{
    let lowered = to_lowercase(answer);
    means_yes(lowered.as_str())
}

/// The question that is put to the customer.
pub fn question() -> (asked: String)
    ensures
        asked@ == "Would you like milk and sugar with you coffee (y/n)"@,
{
    String::from_str("Would you like milk and sugar with you coffee (y/n)")
}

/// The answer of a customer of whom `bytes_read` bytes were read into
/// `buffer`: where nothing was read, the answer is no.
pub fn user_input(bytes_read: usize, buffer: String) -> (answer: String)
    ensures
        answer@ == if bytes_read == 0 {
            "no"@
        } else {
            buffer@
        },
{
    if bytes_read == 0 {
        String::from_str("no")
    } else {
        buffer
    }
}

/// Coffee, with sugar and milk for the customer who asked for them.
pub struct CoffeeWithHook {
    answer: String,
}

impl CoffeeWithHook {
    /// Coffee for a customer who gave that answer when asked about milk and
    /// sugar.
    pub fn new(answer: String) -> (coffee: Self)
        ensures
            coffee.answer_text() == answer@,
    {
        CoffeeWithHook { answer }
    }

    /// The answer that the customer gave.
    pub closed spec fn answer_text(&self) -> Seq<char> {
        self.answer@
    }
}

impl CaffeineBeverageWithHook for CoffeeWithHook {
    open spec fn recipe(&self) -> Recipe {
        Recipe {
            brew: "Dripping Coffee through filter\n"@,
            condiments: "Adding Sugar and Milk\n"@,
            wants_condiments: lowercase(self.answer_text()).len() > 0 && lowercase(
                self.answer_text(),
            )[0] == 'y',
        }
    }

    fn brew(&mut self) -> (said: String) {
        String::from_str("Dripping Coffee through filter\n")
    }

    fn add_condiments(&mut self) -> (said: String) {
        String::from_str("Adding Sugar and Milk\n")
    }

    fn customer_wants_condiments(&mut self) -> (wants: bool) {
        answers_yes(self.answer.as_str())
    }
}

} // verus!
