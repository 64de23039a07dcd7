use vstd::prelude::*;

verus! {

/// The four recognised setup templates.
#[derive(Clone, Copy, Debug, PartialEq, Eq, Structural)]
pub enum SetupTemplate {
    Basic,
    Advanced,
    DataScience,
    Blank,
}

/// The identifier under which a template is selected.
pub open spec fn template_name(t: SetupTemplate) -> Seq<char> {
    match t {
        SetupTemplate::Basic => "basic"@,
        SetupTemplate::Advanced => "advanced"@,
        SetupTemplate::DataScience => "data-science"@,
        SetupTemplate::Blank => "blank"@,
    }
}

/// The template selected by an identifier, if it is one of the four.
pub open spec fn template_named(s: Seq<char>) -> Option<SetupTemplate> {
    if s == "basic"@ {
        Some(SetupTemplate::Basic)
    } else if s == "advanced"@ {
        Some(SetupTemplate::Advanced)
    } else if s == "data-science"@ {
        Some(SetupTemplate::DataScience)
    } else if s == "blank"@ {
        Some(SetupTemplate::Blank)
    } else {
        None
    }
}

/// The manifest text of each template; the blank template is empty.
pub open spec fn template_text(t: SetupTemplate) -> Seq<char> {
    match t {
        SetupTemplate::Basic => "numpy\npandas\nmatplotlib\n"@,
        SetupTemplate::Advanced => "numpy\npandas\nmatplotlib\nseaborn\nscikit-learn\nipykernel\nruff\npytest\n"@,
        SetupTemplate::DataScience => "numpy\npandas\nscipy\nmatplotlib\nseaborn\nscikit-learn\nstatsmodels\njupyterlab\n"@,
        SetupTemplate::Blank => Seq::empty(),
    }
}

fn text_equal(a: &str, b: &str) -> (r: bool)
    ensures
        r == (a@ == b@),
{
    a.to_owned() == b.to_owned()
}

/// Looks up a template by its identifier.
pub fn parse_template(s: &str) -> (r: Option<SetupTemplate>)
    ensures
        r == template_named(s@),
{
    if text_equal(s, "basic") {
        Some(SetupTemplate::Basic)
    } else if text_equal(s, "advanced") {
        Some(SetupTemplate::Advanced)
    } else if text_equal(s, "data-science") {
        Some(SetupTemplate::DataScience)
    } else if text_equal(s, "blank") {
        Some(SetupTemplate::Blank)
    } else {
        None
    }
}

impl SetupTemplate {
    /// The identifier of this template.
    pub fn name(&self) -> (r: &'static str)
        ensures
            r@ == template_name(*self),
    {
        match self {
            SetupTemplate::Basic => "basic",
            SetupTemplate::Advanced => "advanced",
            SetupTemplate::DataScience => "data-science",
            SetupTemplate::Blank => "blank",
        }
    }

    /// The manifest text written for this template.
    pub fn content(&self) -> (r: String)
        ensures
            r@ == template_text(*self),
    {
        match self {
            SetupTemplate::Basic => String::from_str("numpy\npandas\nmatplotlib\n"),
            SetupTemplate::Advanced => String::from_str(
                "numpy\npandas\nmatplotlib\nseaborn\nscikit-learn\nipykernel\nruff\npytest\n",
            ),
            SetupTemplate::DataScience => String::from_str(
                "numpy\npandas\nscipy\nmatplotlib\nseaborn\nscikit-learn\nstatsmodels\njupyterlab\n",
            ),
            SetupTemplate::Blank => String::new(),
        }
    }

    /// Whether this is the empty template, for which nothing is installed.
    pub fn is_blank(&self) -> (r: bool)
        ensures
            r == (*self == SetupTemplate::Blank),
    {
        matches!(self, SetupTemplate::Blank)
    }
}

} // verus!
