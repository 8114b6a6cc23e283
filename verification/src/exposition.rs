//! Rendering a registry snapshot in the line-based text exposition format:
//! for each counter a help line, a type line, and one sample line
//! `name{key="value",...} value`.

use vstd::prelude::*;
use vstd::string::StringExecFns;
use crate::registry::CounterEntry;
use crate::registry::Label;
use crate::strnum::decimal_string;
use crate::strnum::spec_decimal;

verus! {

/// One label as rendered: `key="value"`.
pub open spec fn spec_label_text(l: Label) -> Seq<char> {
    l.key@ + "=\""@ + l.value@ + "\""@
}

/// The labels rendered in order, joined by commas.
pub open spec fn spec_labels_joined(ls: Seq<Label>) -> Seq<char>
    decreases ls.len(),
{
    if ls.len() == 0 {
        Seq::empty()
    } else if ls.len() == 1 {
        spec_label_text(ls[0])
    } else {
        spec_labels_joined(ls.drop_last()) + seq![','] + spec_label_text(ls.last())
    }
}

/// The label block after the counter's name: empty when there are no labels,
/// else the labels in braces.
pub open spec fn spec_label_block(ls: Seq<Label>) -> Seq<char> {
    if ls.len() == 0 {
        Seq::empty()
    } else {
        "{"@ + spec_labels_joined(ls) + "}"@
    }
}

/// One counter's three lines: help, type, and the sample itself.
pub open spec fn spec_entry_text(e: CounterEntry) -> Seq<char> {
    "# HELP "@ + e.name@ + " "@ + e.help@ + "\n"@ + "# TYPE "@ + e.name@ + " counter\n"@ + e.name@
        + spec_label_block(e.labels@) + " "@ + spec_decimal(e.value as nat) + "\n"@
}

/// The whole snapshot: every registered counter, in registration order.
pub open spec fn spec_exposition_text(entries: Seq<CounterEntry>) -> Seq<char>
    decreases entries.len(),
{
    if entries.len() == 0 {
        Seq::empty()
    } else {
        spec_exposition_text(entries.drop_last()) + spec_entry_text(entries.last())
    }
}

/// Law: the exposition text is a function of what the entries read — name,
/// help, labels and value — alone. So a snapshot, whose entries read exactly
/// as the registry's did at the moment of the read, renders to exactly the
/// text the registry itself would have rendered to.
pub proof fn lemma_snapshot_renders_identically(a: Seq<CounterEntry>, b: Seq<CounterEntry>)
    requires
        a.len() == b.len(),
        forall|i: int|
            0 <= i < a.len() ==> #[trigger] a[i].name@ == b[i].name@ && a[i].help@ == b[i].help@
                && a[i].labels@ == b[i].labels@ && a[i].value == b[i].value,
    ensures
        spec_exposition_text(a) == spec_exposition_text(b),
    decreases a.len(),
{
    if a.len() > 0 {
        lemma_snapshot_renders_identically(a.drop_last(), b.drop_last());
        assert(spec_entry_text(a.last()) == spec_entry_text(b.last()));
    }
}

/// Appends the label block.
fn append_labels(s: &mut String, labels: &Vec<Label>)
    ensures
        final(s)@ == old(s)@ + spec_label_block(labels@),
{
    if labels.len() == 0 {
        proof {
            assert(s@ =~= old(s)@ + spec_label_block(labels@));
        }
        return ;
    }
    s.append("{");
    let mut i: usize = 0;
    while i < labels.len()
        invariant
            i <= labels@.len(),
            s@ == old(s)@ + "{"@ + spec_labels_joined(labels@.take(i as int)),
        decreases labels@.len() - i,
    {
        if i > 0 {
            s.append(",");
        }
        s.append(labels[i].key.as_str());
        s.append("=\"");
        s.append(labels[i].value.as_str());
        s.append("\"");
        proof {
            reveal_strlit(",");
            let t = labels@.take(i as int + 1);
            assert(t.drop_last() =~= labels@.take(i as int));
            assert(t.last() == labels@[i as int]);
            if i == 0 {
                assert(spec_labels_joined(t) == spec_label_text(labels@[0]));
            }
            assert(s@ =~= old(s)@ + "{"@ + spec_labels_joined(t));
        }
        i = i + 1;
    }
    s.append("}");
    proof {
        assert(labels@.take(labels@.len() as int) =~= labels@);
        assert(s@ =~= old(s)@ + spec_label_block(labels@));
    }
}

/// Appends one counter's three lines.
fn append_entry(s: &mut String, e: &CounterEntry)
    ensures
        final(s)@ == old(s)@ + spec_entry_text(*e),
{
    s.append("# HELP ");
    s.append(e.name.as_str());
    s.append(" ");
    s.append(e.help.as_str());
    s.append("\n");
    s.append("# TYPE ");
    s.append(e.name.as_str());
    s.append(" counter\n");
    s.append(e.name.as_str());
    append_labels(s, &e.labels);
    s.append(" ");
    let digits = decimal_string(e.value);
    s.append(digits.as_str());
    s.append("\n");
    proof {
        assert(s@ =~= old(s)@ + spec_entry_text(*e));
    }
}

/// Renders a registry snapshot, whole: one block of lines per counter, in
/// registration order, values printed in decimal. Rendering reads the
/// entries and changes nothing.
pub fn render_exposition(entries: &Vec<CounterEntry>) -> (r: String)
    ensures
        r@ == spec_exposition_text(entries@),
{
    let mut s = String::new();
    proof {
        assert(entries@.take(0) =~= Seq::<CounterEntry>::empty());
    }
    let mut i: usize = 0;
    while i < entries.len()
        invariant
            i <= entries@.len(),
            s@ == spec_exposition_text(entries@.take(i as int)),
        decreases entries@.len() - i,
    {
        append_entry(&mut s, &entries[i]);
        proof {
            let t = entries@.take(i as int + 1);
            assert(t.drop_last() =~= entries@.take(i as int));
            assert(t.last() == entries@[i as int]);
        }
        i = i + 1;
    }
    proof {
        assert(entries@.take(entries@.len() as int) =~= entries@);
    }
    s
}

} // verus!
