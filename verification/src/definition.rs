//! One sense of a word.

use vstd::prelude::*;
use crate::source::SourceDict;
use crate::tags::{remove_tags, stripped, tag_free};

verus! {

/// A sentence that shows a word in use.
#[derive(Debug, Clone)]
pub struct Example {
    pub text: String,
}

impl DeepView for Example {
    type V = Seq<char>;

    open spec fn deep_view(&self) -> Seq<char> {
        self.text@
    }
}

/// One sense of a word, as the dictionary service gives it.
#[derive(Debug, Clone)]
pub struct Definition {
    text: Option<String>,
    part_of_speech: String,
    example_uses: Vec<Example>,
    source_dictionary: Option<SourceDict>,
    attribution_url: Option<String>,
}

/// What a [`Definition`] holds.
pub struct DefinitionView {
    /// The sense itself; absent in an entry that is to be skipped.
    pub text: Option<Seq<char>>,
    pub part_of_speech: Seq<char>,
    /// The examples, in the order the service gave them.
    pub examples: Seq<Seq<char>>,
    pub source: Option<SourceDict>,
    pub attribution_url: Option<Seq<char>>,
}

/// The part of speech of a definition that names none.
pub open spec fn no_part_of_speech() -> Seq<char> {
    "[None]"@
}

impl DefinitionView {
    /// The first example, if there is any.
    pub open spec fn top_example(self) -> Option<Seq<char>> {
        if self.examples.len() > 0 {
            Some(self.examples[0])
        } else {
            None
        }
    }

    /// The same definition with the tags taken out of its text and examples.
    pub open spec fn cleaned(self) -> DefinitionView {
        DefinitionView {
            text: match self.text {
                Some(t) => Some(stripped(t)),
                None => None,
            },
            part_of_speech: self.part_of_speech,
            examples: self.examples.map_values(|e: Seq<char>| stripped(e)),
            source: self.source,
            attribution_url: self.attribution_url,
        }
    }

    /// Whether neither the text nor any example holds a tag.
    pub open spec fn is_clean(self) -> bool {
        &&& self.text matches Some(t) ==> tag_free(t)
        &&& forall|i: int| 0 <= i < self.examples.len() ==> tag_free(#[trigger] self.examples[i])
    }
}

impl View for Definition {
    type V = DefinitionView;

    closed spec fn view(&self) -> DefinitionView {
        DefinitionView {
            text: self.text.deep_view(),
            part_of_speech: self.part_of_speech@,
            examples: self.example_uses.deep_view(),
            source: self.source_dictionary,
            attribution_url: self.attribution_url.deep_view(),
        }
    }
}

impl DeepView for Definition {
    type V = DefinitionView;

    open spec fn deep_view(&self) -> DefinitionView {
        self.view()
    }
}

impl Definition {
    /// A definition with the given content. Without a part of speech it gets
    /// the one of [`Definition::no_pos`].
    pub fn new(
        text: Option<String>,
        part_of_speech: Option<String>,
        examples: Vec<String>,
        source: Option<SourceDict>,
        attribution_url: Option<String>,
    ) -> (out: Definition)
        ensures
            out@ == (DefinitionView {
                text: text.deep_view(),
                part_of_speech: match part_of_speech {
                    Some(p) => p@,
                    None => no_part_of_speech(),
                },
                examples: examples.deep_view(),
                source,
                attribution_url: attribution_url.deep_view(),
            }),
    {
        let mut example_uses: Vec<Example> = Vec::new();
        let mut i: usize = 0;
        while i < examples.len()
            invariant
                i <= examples.len(),
                example_uses.len() == i,
                forall|k: int| 0 <= k < i ==> example_uses@[k].text@ == examples@[k]@,
            decreases examples.len() - i,
        {
            example_uses.push(Example { text: examples[i].clone() });
            i += 1;
        }
        assert(example_uses.deep_view() =~= examples.deep_view());
        let part_of_speech = match part_of_speech {
            Some(p) => p,
            None => Definition::no_pos(),
        };
        Definition {
            text,
            part_of_speech,
            example_uses,
            source_dictionary: source,
            attribution_url,
        }
    }

    /// The text of the definition, if it has one.
    pub fn text(&self) -> (out: Option<&str>)
        ensures
            out.deep_view() == self@.text,
    {
        match &self.text {
            Some(t) => Some(t.as_str()),
            None => None,
        }
    }

    /// The part of speech of the defined sense.
    pub fn part_of_speech(&self) -> (out: &str)
        ensures
            out@ == self@.part_of_speech,
    {
        self.part_of_speech.as_str()
    }

    /// All examples, in the order the service gave them.
    pub fn examples(&self) -> (out: Vec<String>)
        ensures
            out.deep_view() == self@.examples,
    {
        let mut out: Vec<String> = Vec::new();
        let mut i: usize = 0;
        while i < self.example_uses.len()
            invariant
                i <= self.example_uses.len(),
                out.len() == i,
                forall|k: int| 0 <= k < i ==> out@[k]@ == self.example_uses@[k].text@,
            decreases self.example_uses.len() - i,
        {
            out.push(self.example_uses[i].text.clone());
            i += 1;
        }
        assert(out.deep_view() =~= self.example_uses.deep_view());
        out
    }

    /// The first example, if there is any.
    pub fn top_example(&self) -> (out: Option<&str>)
        ensures
            out.deep_view() == self@.top_example(),
    {
        if self.example_uses.len() > 0 {
            Some(self.example_uses[0].text.as_str())
        } else {
            None
        }
    }

    /// The dictionary the definition was taken from, where the service names it.
    pub fn source(&self) -> (out: Option<SourceDict>)
        ensures
            out == self@.source,
    {
        self.source_dictionary
    }

    /// Where the definition is attributed to, where the service says so.
    pub fn attrib_url(&self) -> (out: Option<&str>)
        ensures
            out.deep_view() == self@.attribution_url,
    {
        match &self.attribution_url {
            Some(u) => Some(u.as_str()),
            None => None,
        }
    }

    /// The part of speech given to a definition that names none.
    pub fn no_pos() -> (out: String)
        ensures
            out@ == no_part_of_speech(),
    {
        "[None]".to_owned()
    }

    /// The same definition with the tags taken out of its text and examples.
    pub fn cleaned(&self) -> (out: Definition)
        ensures
            out@ == self@.cleaned(),
            out@.is_clean(),
    {
        let text = match &self.text {
            Some(t) => Some(remove_tags(t.as_str())),
            None => None,
        };
        let mut example_uses: Vec<Example> = Vec::new();
        let mut i: usize = 0;
        while i < self.example_uses.len()
            invariant
                i <= self.example_uses.len(),
                example_uses.len() == i,
                forall|k: int|
                    0 <= k < i ==> example_uses@[k].text@ == stripped(self.example_uses@[k].text@),
                forall|k: int| 0 <= k < i ==> tag_free(example_uses@[k].text@),
            decreases self.example_uses.len() - i,
        {
            example_uses.push(Example { text: remove_tags(self.example_uses[i].text.as_str()) });
            i += 1;
        }
        assert(example_uses.deep_view() =~= self@.cleaned().examples);
        Definition {
            text,
            part_of_speech: self.part_of_speech.clone(),
            example_uses,
            source_dictionary: self.source_dictionary,
            attribution_url: match &self.attribution_url {
                Some(u) => Some(u.clone()),
                None => None,
            },
        }
    }
}

} // verus!
