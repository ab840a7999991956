//! A diagram as a PureScript module.
//!
//! The module defines one value, the portal: a function from a record of
//! actions, one field for each use case, to a list of buttons. Each button
//! names a use case, the set of actors that may invoke it, and the action
//! of that use case.
//!
//! The text is appended to a `String`; handing it on to a file or a stream
//! is the caller's business.

use crate::diagram::UseCaseDiagram;
use crate::model::DiagramView;
use crate::portal::{button_views, portal, portal_buttons, texts, Button, ButtonView};
use vstd::prelude::*;
use vstd::string::*;

verus! {

/// The text that the standard library's `Debug` formatting gives for the
/// string `text`: `text` between double quotes, with the characters that
/// cannot stand in a string literal escaped.
pub uninterp spec fn debug_text(text: Seq<char>) -> Seq<char>;

/// Formats `text` with `{:?}`, which runs `<str as core::fmt::Debug>::fmt` of
/// the standard library. Not proved: that the result is `debug_text` of
/// `text`, which is to say that it depends on the characters of `text` alone.
#[verifier::external_body]
fn debug_string(text: &str) -> (literal: String)
    ensures
        literal@ == debug_text(text@),
{
    format!("{:?}", text)
}

/// The line that opens a module named `name`.
pub open spec fn module_header_text(name: Seq<char>) -> Seq<char> {
    "module "@ + name + " where\n"@
}

/// The imports that the generated definitions need.
pub open spec fn imports_text() -> Seq<char> {
    "import Prelude\n"@ + "import Data.List as List\n"@ + "import Data.Set as Set\n"@
        + "import Butterfly.Actor (Actor (..))\n"@
        + "import Butterfly.Portal (Button (..), Portal (..))\n"@
}

/// One field of the record of actions: the separator that its position
/// calls for, the use case's title as a literal, and the type of an action.
pub open spec fn record_field_text(position: int, title: Seq<char>) -> Seq<char> {
    (if position == 0 {
        " "@
    } else {
        "\n     , "@
    }) + title + " :: f Unit"@
}

/// The fields of the record of actions, one for each button.
pub open spec fn record_fields_text(buttons: Seq<ButtonView>) -> Seq<char>
    decreases buttons.len(),
{
    if buttons.len() == 0 {
        Seq::empty()
    } else {
        record_fields_text(buttons.drop_last()) + record_field_text(
            buttons.len() - 1,
            buttons.last().title,
        )
    }
}

/// One entry of a button's list of actors: the separator that its position
/// calls for, and the actor built from its name as a literal.
pub open spec fn actor_entry_text(position: int, name: Seq<char>) -> Seq<char> {
    (if position == 0 {
        " "@
    } else {
        "\n                , "@
    }) + "Actor "@ + name
}

/// The entries of a button's list of actors.
pub open spec fn actor_entries_text(names: Seq<Seq<char>>) -> Seq<char>
    decreases names.len(),
{
    if names.len() == 0 {
        Seq::empty()
    } else {
        actor_entries_text(names.drop_last()) + actor_entry_text(names.len() - 1, names.last())
    }
}

/// One entry of the portal's list of buttons: the separator that its
/// position calls for, then the button built from the use case's title, the
/// set of its actors, and the field of the record of actions that the title
/// selects.
pub open spec fn button_entry_text(position: int, button: ButtonView) -> Seq<char> {
    (if position == 0 {
        " "@
    } else {
        "\n    , "@
    }) + "Button "@ + button.title + "\n"@ + "             (Set.fromFoldable\n"@
        + "                ["@ + actor_entries_text(button.actors) + " ])\n"@
        + "             actions."@ + button.title
}

/// The entries of the portal's list of buttons.
pub open spec fn button_entries_text(buttons: Seq<ButtonView>) -> Seq<char>
    decreases buttons.len(),
{
    if buttons.len() == 0 {
        Seq::empty()
    } else {
        button_entries_text(buttons.drop_last()) + button_entry_text(
            buttons.len() - 1,
            buttons.last(),
        )
    }
}

/// The type of the portal named `name`: a function from the record of
/// actions to a portal.
pub open spec fn portal_signature_text(name: Seq<char>, buttons: Seq<ButtonView>) -> Seq<char> {
    name + "\n"@ + "  :: ∀ f\n"@ + "   . {"@ + record_fields_text(buttons) + " }\n"@
        + "  -> Portal f\n"@
}

/// The value of the portal named `name`: the list of its buttons.
pub open spec fn portal_value_text(name: Seq<char>, buttons: Seq<ButtonView>) -> Seq<char> {
    name + " actions =\n"@ + "  Portal <<< List.fromFoldable $\n"@ + "    ["@ + button_entries_text(
        buttons,
    ) + " ]\n"@
}

/// The definition of the portal named `name` with the given buttons, whose
/// titles and actors are written as they shall stand in the text, that is as
/// string literals.
pub open spec fn portal_definition_text(name: Seq<char>, buttons: Seq<ButtonView>) -> Seq<char> {
    portal_signature_text(name, buttons) + portal_value_text(name, buttons)
}

/// The step from a text to the literal that denotes it.
pub open spec fn as_literal() -> spec_fn(Seq<char>) -> Seq<char> {
    |text: Seq<char>| debug_text(text)
}

/// A button with its title and its actors written as string literals.
pub open spec fn literal_button(button: ButtonView) -> ButtonView {
    ButtonView { title: debug_text(button.title), actors: button.actors.map_values(as_literal()) }
}

/// Buttons with their titles and their actors written as string literals.
pub open spec fn literal_buttons(buttons: Seq<ButtonView>) -> Seq<ButtonView> {
    buttons.map_values(|button: ButtonView| literal_button(button))
}

/// The definition of the portal of `diagram` under the name `name`.
pub open spec fn generated_portal_text(diagram: DiagramView, name: Seq<char>) -> Seq<
    char,
> {
    portal_definition_text(name, literal_buttons(portal(diagram)))
}

/// For a diagram without use cases the portal's type has an empty record and
/// its value is built from an empty list, whatever actors the diagram holds.
pub proof fn lemma_portal_text_without_use_cases(diagram: DiagramView, name: Seq<char>)
    requires
        diagram.use_cases.len() == 0,
    ensures
        generated_portal_text(diagram, name) == name + "\n  :: ∀ f\n   . { }\n  -> Portal f\n"@
            + name + " actions =\n  Portal <<< List.fromFoldable $\n    [ ]\n"@,
{
    reveal_strlit("\n");
    reveal_strlit("  :: ∀ f\n");
    reveal_strlit("   . {");
    reveal_strlit(" }\n");
    reveal_strlit("  -> Portal f\n");
    reveal_strlit(" actions =\n");
    reveal_strlit("  Portal <<< List.fromFoldable $\n");
    reveal_strlit("    [");
    reveal_strlit(" ]\n");
    reveal_strlit("\n  :: ∀ f\n   . { }\n  -> Portal f\n");
    reveal_strlit(" actions =\n  Portal <<< List.fromFoldable $\n    [ ]\n");
    let buttons = literal_buttons(portal(diagram));
    assert(buttons =~= Seq::empty());
    assert(portal_signature_text(name, buttons) =~= name
        + "\n  :: ∀ f\n   . { }\n  -> Portal f\n"@);
    assert(portal_value_text(name, buttons) =~= name
        + " actions =\n  Portal <<< List.fromFoldable $\n    [ ]\n"@);
}

/// The text of a portal depends on what the diagram holds and on the name,
/// and on nothing else: two diagrams that hold the same, under names that
/// read the same, give the same text character for character. So does one
/// diagram, unchanged, when it is rendered twice.
pub proof fn lemma_generation_repeats(
    first: UseCaseDiagram,
    first_name: &str,
    second: UseCaseDiagram,
    second_name: &str,
)
    requires
        first@.actors =~= second@.actors,
        first@.use_cases =~= second@.use_cases,
        first@.associations =~= second@.associations,
        first_name@ =~= second_name@,
    ensures
        generated_portal_text(first@, first_name@) == generated_portal_text(second@, second_name@),
        module_header_text(first_name@) == module_header_text(second_name@),
{
    assert(first@ == second@);
}

/// Generate a module header.
pub fn generate_module_header(w: &mut String, name: &str)
    ensures
        final(w)@ == old(w)@ + module_header_text(name@),
{
    w.append("module ");
    w.append(name);
    w.append(" where\n");
    assert(w@ =~= old(w)@ + module_header_text(name@));
}

/// Generate the imports necessary for the other generated code.
pub fn generate_imports(w: &mut String)
    ensures
        final(w)@ == old(w)@ + imports_text(),
{
    w.append("import Prelude\n");
    w.append("import Data.List as List\n");
    w.append("import Data.Set as Set\n");
    w.append("import Butterfly.Actor (Actor (..))\n");
    w.append("import Butterfly.Portal (Button (..), Portal (..))\n");
    assert(w@ =~= old(w)@ + imports_text());
}

/// Writes one field of the record of actions.
fn write_record_field(w: &mut String, position: usize, title: &str)
    ensures
        final(w)@ == old(w)@ + record_field_text(position as int, title@),
{
    if position == 0 {
        w.append(" ");
    } else {
        w.append("\n     , ");
    }
    w.append(title);
    w.append(" :: f Unit");
    assert(w@ =~= old(w)@ + record_field_text(position as int, title@));
}

/// Writes the fields of the record of actions.
fn write_record_fields(w: &mut String, buttons: &Vec<Button>)
    ensures
        final(w)@ == old(w)@ + record_fields_text(button_views(buttons@)),
{
    let ghost all = button_views(buttons@);
    let mut i: usize = 0;
    assert(w@ =~= old(w)@ + record_fields_text(all.take(0)));
    while i < buttons.len()
        invariant
            i <= buttons.len(),
            all == button_views(buttons@),
            w@ == old(w)@ + record_fields_text(all.take(i as int)),
        decreases buttons.len() - i,
    {
        let ghost before = w@;
        write_record_field(w, i, buttons[i].title.as_str());
        proof {
            assert(all.take(i + 1).drop_last() =~= all.take(i as int));
            assert(all.take(i + 1).last() == buttons@[i as int]@);
            assert(w@ =~= old(w)@ + record_fields_text(all.take(i + 1)));
        }
        i += 1;
    }
    assert(all.take(i as int) =~= all);
}

/// Writes one entry of a button's list of actors.
fn write_actor_entry(w: &mut String, position: usize, name: &str)
    ensures
        final(w)@ == old(w)@ + actor_entry_text(position as int, name@),
{
    if position == 0 {
        w.append(" ");
    } else {
        w.append("\n                , ");
    }
    w.append("Actor ");
    w.append(name);
    assert(w@ =~= old(w)@ + actor_entry_text(position as int, name@));
}

/// Writes the entries of a button's list of actors.
fn write_actor_entries(w: &mut String, names: &Vec<String>)
    ensures
        final(w)@ == old(w)@ + actor_entries_text(texts(names@)),
{
    let ghost all = texts(names@);
    let mut i: usize = 0;
    assert(w@ =~= old(w)@ + actor_entries_text(all.take(0)));
    while i < names.len()
        invariant
            i <= names.len(),
            all == texts(names@),
            w@ == old(w)@ + actor_entries_text(all.take(i as int)),
        decreases names.len() - i,
    {
        write_actor_entry(w, i, names[i].as_str());
        proof {
            assert(all.take(i + 1).drop_last() =~= all.take(i as int));
            assert(all.take(i + 1).last() == names@[i as int]@);
            assert(w@ =~= old(w)@ + actor_entries_text(all.take(i + 1)));
        }
        i += 1;
    }
    assert(all.take(i as int) =~= all);
}

/// Writes one entry of the portal's list of buttons.
fn write_button_entry(w: &mut String, position: usize, button: &Button)
    ensures
        final(w)@ == old(w)@ + button_entry_text(position as int, button@),
{
    if position == 0 {
        w.append(" ");
    } else {
        w.append("\n    , ");
    }
    w.append("Button ");
    w.append(button.title.as_str());
    w.append("\n");
    w.append("             (Set.fromFoldable\n");
    w.append("                [");
    write_actor_entries(w, &button.actors);
    w.append(" ])\n");
    w.append("             actions.");
    w.append(button.title.as_str());
    assert(w@ =~= old(w)@ + button_entry_text(position as int, button@));
}

/// Writes the entries of the portal's list of buttons.
fn write_button_entries(w: &mut String, buttons: &Vec<Button>)
    ensures
        final(w)@ == old(w)@ + button_entries_text(button_views(buttons@)),
{
    let ghost all = button_views(buttons@);
    let mut i: usize = 0;
    assert(w@ =~= old(w)@ + button_entries_text(all.take(0)));
    while i < buttons.len()
        invariant
            i <= buttons.len(),
            all == button_views(buttons@),
            w@ == old(w)@ + button_entries_text(all.take(i as int)),
        decreases buttons.len() - i,
    {
        write_button_entry(w, i, &buttons[i]);
        proof {
            assert(all.take(i + 1).drop_last() =~= all.take(i as int));
            assert(all.take(i + 1).last() == buttons@[i as int]@);
            assert(w@ =~= old(w)@ + button_entries_text(all.take(i + 1)));
        }
        i += 1;
    }
    assert(all.take(i as int) =~= all);
}

/// Writes the definition of the portal named `name` from buttons whose
/// titles and actors are string literals already: they are written as they
/// are. First comes the portal's type, with a record field for each button,
/// then its value, with an entry for each button.
pub fn render_portal_definition(w: &mut String, buttons: &Vec<Button>, name: &str)
    ensures
        final(w)@ == old(w)@ + portal_definition_text(name@, button_views(buttons@)),
{
    w.append(name);
    w.append("\n");
    w.append("  :: ∀ f\n");
    w.append("   . {");
    write_record_fields(w, buttons);
    w.append(" }\n");
    w.append("  -> Portal f\n");
    assert(w@ =~= old(w)@ + portal_signature_text(name@, button_views(buttons@)));
    let ghost signed = w@;
    w.append(name);
    w.append(" actions =\n");
    w.append("  Portal <<< List.fromFoldable $\n");
    w.append("    [");
    write_button_entries(w, buttons);
    w.append(" ]\n");
    assert(w@ =~= signed + portal_value_text(name@, button_views(buttons@)));
    assert(w@ =~= old(w)@ + portal_definition_text(name@, button_views(buttons@)));
}

/// The button with its title and each of its actors written as a string
/// literal.
pub fn button_literal(button: &Button) -> (literal: Button)
    ensures
        literal@ == literal_button(button@),
{
    let title = debug_string(button.title.as_str());
    let mut actors: Vec<String> = Vec::new();
    let mut i: usize = 0;
    while i < button.actors.len()
        invariant
            i <= button.actors.len(),
            actors@.len() == i,
            forall|j: int| 0 <= j < i ==> (#[trigger] actors@[j])@ == debug_text(button.actors@[j]@),
        decreases button.actors.len() - i,
    {
        actors.push(debug_string(button.actors[i].as_str()));
        i += 1;
    }
    assert(texts(actors@) =~= texts(button.actors@).map_values(as_literal()));
    Button { title, actors }
}

/// The buttons with their titles and actors written as string literals.
pub fn button_literals(buttons: &Vec<Button>) -> (literals: Vec<Button>)
    ensures
        button_views(literals@) == literal_buttons(button_views(buttons@)),
{
    let mut literals: Vec<Button> = Vec::new();
    let mut i: usize = 0;
    while i < buttons.len()
        invariant
            i <= buttons.len(),
            literals@.len() == i,
            forall|j: int| 0 <= j < i ==> (#[trigger] literals@[j])@ == literal_button(buttons@[j]@),
        decreases buttons.len() - i,
    {
        literals.push(button_literal(&buttons[i]));
        i += 1;
    }
    assert(button_views(literals@) =~= literal_buttons(button_views(buttons@)));
    literals
}

/// Generate a PureScript definition for a portal.
///
/// The portal has one button for each use case of the diagram, in the order
/// of the use cases' identifiers; the button's actors are those that the
/// diagram associates with the use case.
pub fn generate_portal_definition(w: &mut String, diagram: &UseCaseDiagram, name: &str)
    ensures
        final(w)@ == old(w)@ + generated_portal_text(diagram@, name@),
{
    let buttons = portal_buttons(diagram);
    let literals = button_literals(&buttons);
    render_portal_definition(w, &literals, name);
}

} // verus!
