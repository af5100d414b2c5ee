//! Embedded templates for Harvard style.

use vstd::prelude::*;
#[allow(unused_imports)]
use crate::options::contributors::AndOptions;
#[allow(unused_imports)]
use crate::embedded::parts::{
    contributor, contributor_part, date, date_part, number, number_part, style, styled, title, title_part, variable,
    variable_part,
};
#[allow(unused_imports)]
use crate::template::{
    ContributorForm, ContributorRole, DateForm, DateVariable, NumberVariable, SimpleVariable, TemplateComponent,
    TitleType, WrapPunctuation,
};
use crate::template_view::{lemma_tcs_view, tcs_view, TCV};

verus! {

/// The components of `citation`, in order.
pub open spec fn citation_parts() -> Seq<TCV> {
    seq![
        contributor_part(ContributorRole::Author, ContributorForm::Short, Some(AndOptions::Text), styled(None, None, None, None, None)),
        date_part(DateVariable::Issued, DateForm::Year, styled(Some(" "@), None, None, None, None)),
    ]
}

/// Citation template for Harvard style: (Author Year), as in
/// (Smith and Jones 2024).
pub fn citation() -> (r: Vec<TemplateComponent>)
    ensures
        tcs_view(r@) == citation_parts(),
{
    let mut v: Vec<TemplateComponent> = Vec::new();
    v.push(contributor(ContributorRole::Author, ContributorForm::Short, Some(AndOptions::Text), style(None, None, None, None, None)));
    v.push(date(DateVariable::Issued, DateForm::Year, style(Some(" "), None, None, None, None)));
    proof {
        lemma_tcs_view(v@);
        assert(tcs_view(v@) =~= citation_parts());
    }
    v
}

/// The components of `bibliography`, in order.
pub open spec fn bibliography_parts() -> Seq<TCV> {
    seq![
        contributor_part(ContributorRole::Author, ContributorForm::Long, None, styled(None, Some(" "@), None, None, None)),
        date_part(DateVariable::Issued, DateForm::Year, styled(None, Some(" "@), None, None, Some(WrapPunctuation::Parentheses))),
        title_part(TitleType::Primary, styled(None, Some(". "@), None, None, None)),
        title_part(TitleType::ParentSerial, styled(None, Some(" "@), Some(true), None, None)),
        number_part(NumberVariable::Volume, styled(None, None, None, None, None)),
        number_part(NumberVariable::Issue, styled(None, Some(", "@), None, None, Some(WrapPunctuation::Parentheses))),
        number_part(NumberVariable::Pages, styled(None, Some("."@), None, None, None)),
    ]
}

/// Bibliography template for Harvard/Elsevier style: Author, A.B. (Year)
/// Title. Journal Volume(Issue), Pages.
pub fn bibliography() -> (r: Vec<TemplateComponent>)
    ensures
        tcs_view(r@) == bibliography_parts(),
{
    let mut v: Vec<TemplateComponent> = Vec::new();
    v.push(contributor(ContributorRole::Author, ContributorForm::Long, None, style(None, Some(" "), None, None, None)));
    v.push(date(DateVariable::Issued, DateForm::Year, style(None, Some(" "), None, None, Some(WrapPunctuation::Parentheses))));
    v.push(title(TitleType::Primary, style(None, Some(". "), None, None, None)));
    v.push(title(TitleType::ParentSerial, style(None, Some(" "), Some(true), None, None)));
    v.push(number(NumberVariable::Volume, style(None, None, None, None, None)));
    v.push(number(NumberVariable::Issue, style(None, Some(", "), None, None, Some(WrapPunctuation::Parentheses))));
    v.push(number(NumberVariable::Pages, style(None, Some("."), None, None, None)));
    proof {
        lemma_tcs_view(v@);
        assert(tcs_view(v@) =~= bibliography_parts());
    }
    v
}

} // verus!
