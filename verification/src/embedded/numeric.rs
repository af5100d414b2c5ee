//! Embedded template for plain numeric citation styles.

use vstd::prelude::*;
#[allow(unused_imports)]
use crate::options::contributors::AndOptions;
#[allow(unused_imports)]
use crate::embedded::parts::{
    contributor, contributor_part, date, date_part, number, number_part, style, styled, title, title_part, variable,
    variable_part,
};
#[allow(unused_imports)]
use crate::template::{
    ContributorForm, ContributorRole, DateForm, DateVariable, NumberVariable, SimpleVariable, TemplateComponent,
    TitleType, WrapPunctuation,
};
use crate::template_view::{lemma_tcs_view, tcs_view, TCV};

verus! {

/// The components of `citation`, in order.
pub open spec fn citation_parts() -> Seq<TCV> {
    seq![
        number_part(NumberVariable::CitationNumber, styled(None, None, None, None, None)),
    ]
}

/// Citation template for plain numeric styles: the citation number itself
/// (wrapping is left to the citation options): `1`, `(1)` or `[1]`.
pub fn citation() -> (r: Vec<TemplateComponent>)
    ensures
        tcs_view(r@) == citation_parts(),
{
    let mut v: Vec<TemplateComponent> = Vec::new();
    v.push(number(NumberVariable::CitationNumber, style(None, None, None, None, None)));
    proof {
        lemma_tcs_view(v@);
        assert(tcs_view(v@) =~= citation_parts());
    }
    v
}

} // verus!
