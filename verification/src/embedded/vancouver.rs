//! Embedded templates for Vancouver (numeric) style.

use vstd::prelude::*;
#[allow(unused_imports)]
use crate::options::contributors::AndOptions;
#[allow(unused_imports)]
use crate::embedded::parts::{
    contributor, contributor_part, date, date_part, number, number_part, style, styled, title, title_part, variable,
    variable_part,
};
#[allow(unused_imports)]
use crate::template::{
    ContributorForm, ContributorRole, DateForm, DateVariable, NumberVariable, SimpleVariable, TemplateComponent,
    TitleType, WrapPunctuation,
};
use crate::template_view::{lemma_tcs_view, tcs_view, TCV};

verus! {

/// The components of `citation`, in order.
pub open spec fn citation_parts() -> Seq<TCV> {
    seq![
        number_part(NumberVariable::CitationNumber, styled(None, None, None, None, Some(WrapPunctuation::Brackets))),
    ]
}

/// Citation template for Vancouver style: [1].
pub fn citation() -> (r: Vec<TemplateComponent>)
    ensures
        tcs_view(r@) == citation_parts(),
{
    let mut v: Vec<TemplateComponent> = Vec::new();
    v.push(number(NumberVariable::CitationNumber, style(None, None, None, None, Some(WrapPunctuation::Brackets))));
    proof {
        lemma_tcs_view(v@);
        assert(tcs_view(v@) =~= citation_parts());
    }
    v
}

/// The components of `bibliography`, in order.
pub open spec fn bibliography_parts() -> Seq<TCV> {
    seq![
        number_part(NumberVariable::CitationNumber, styled(None, Some(". "@), None, None, None)),
        contributor_part(ContributorRole::Author, ContributorForm::Long, None, styled(None, Some(". "@), None, None, None)),
        title_part(TitleType::Primary, styled(None, Some(". "@), None, None, None)),
        title_part(TitleType::ParentSerial, styled(None, Some(". "@), None, None, None)),
        date_part(DateVariable::Issued, DateForm::Year, styled(None, Some(";"@), None, None, None)),
        number_part(NumberVariable::Volume, styled(None, None, None, None, None)),
        number_part(NumberVariable::Issue, styled(None, None, None, None, Some(WrapPunctuation::Parentheses))),
        number_part(NumberVariable::Pages, styled(Some(":"@), Some("."@), None, None, None)),
    ]
}

/// Bibliography template for Vancouver style: 1. Author AA, Author BB.
/// Title. Journal. Year;Volume(Issue):Pages.
pub fn bibliography() -> (r: Vec<TemplateComponent>)
    ensures
        tcs_view(r@) == bibliography_parts(),
{
    let mut v: Vec<TemplateComponent> = Vec::new();
    v.push(number(NumberVariable::CitationNumber, style(None, Some(". "), None, None, None)));
    v.push(contributor(ContributorRole::Author, ContributorForm::Long, None, style(None, Some(". "), None, None, None)));
    v.push(title(TitleType::Primary, style(None, Some(". "), None, None, None)));
    v.push(title(TitleType::ParentSerial, style(None, Some(". "), None, None, None)));
    v.push(date(DateVariable::Issued, DateForm::Year, style(None, Some(";"), None, None, None)));
    v.push(number(NumberVariable::Volume, style(None, None, None, None, None)));
    v.push(number(NumberVariable::Issue, style(None, None, None, None, Some(WrapPunctuation::Parentheses))));
    v.push(number(NumberVariable::Pages, style(Some(":"), Some("."), None, None, None)));
    proof {
        lemma_tcs_view(v@);
        assert(tcs_view(v@) =~= bibliography_parts());
    }
    v
}

} // verus!
