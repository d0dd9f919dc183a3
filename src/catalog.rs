//! The template catalog: templates keyed by their id, each registered once
//! and never changed afterwards.
use vstd::prelude::*;

use crate::model::{ContainerTemplate, TemplateView};
use crate::templates::{
    cybersec_lab_template, data_science_template, dev_environment_template,
    is_cybersec_lab_template, is_data_science_template, is_dev_environment_template,
    is_ml_training_template, is_web_pentest_template, ml_training_template, web_pentest_template,
};

verus! {

/// No two templates share an id.
pub open spec fn ids_unique(s: Seq<TemplateView>) -> bool {
    forall|i: int, j: int| 0 <= i < j < s.len() ==> s[i].id != s[j].id
}

/// Some template of `s` has the id `id`.
pub open spec fn has_template(s: Seq<TemplateView>, id: Seq<char>) -> bool {
    exists|i: int| 0 <= i < s.len() && s[i].id == id
}

/// The templates of `s` under their ids.
pub open spec fn templates_by_id(s: Seq<TemplateView>) -> Map<Seq<char>, TemplateView> {
    Map::new(
        |id: Seq<char>| has_template(s, id),
        |id: Seq<char>| s[choose|i: int| 0 <= i < s.len() && s[i].id == id],
    )
}

pub struct TemplateCatalog {
    templates: Vec<ContainerTemplate>,
}

impl View for TemplateCatalog {
    type V = Seq<TemplateView>;

    /// The templates in the order they were registered.
    closed spec fn view(&self) -> Seq<TemplateView> {
        self.templates@.map_values(|t: ContainerTemplate| t@)
    }
}

impl TemplateCatalog {
    pub open spec fn wf(&self) -> bool {
        ids_unique(self@)
    }

    /// An empty catalog.
    pub fn new() -> (r: TemplateCatalog)
        ensures
            r.wf(),
            r@ == Seq::<TemplateView>::empty(),
    {
        let r = TemplateCatalog { templates: Vec::new() };
        assert(r@ =~= Seq::<TemplateView>::empty());
        r
    }

    /// The position of the template with id `id`, if there is one.
    fn position(&self, id: &String) -> (r: Option<usize>)
        ensures
            match r {
                None => !has_template(self@, id@),
                Some(i) => i < self@.len() && self@[i as int].id == id@,
            },
    {
        let mut i: usize = 0;
        while i < self.templates.len()
            invariant
                i <= self.templates@.len(),
                forall|j: int| 0 <= j < i ==> self@[j].id != id@,
            decreases self.templates@.len() - i,
        {
            if self.templates[i].id == *id {
                return Some(i);
            }
            i = i + 1;
        }
        None
    }

    /// Adds `template` unless a template with its id is already there;
    /// says whether it was added.
    pub fn register(&mut self, template: ContainerTemplate) -> (added: bool)
        requires
            old(self).wf(),
        ensures
            final(self).wf(),
            added == !has_template(old(self)@, template@.id),
            added ==> final(self)@ == old(self)@.push(template@),
            !added ==> final(self)@ == old(self)@,
    {
        match self.position(&template.id) {
            Some(_) => false,
            None => {
                let ghost before = self@;
                self.templates.push(template);
                assert(self@ =~= before.push(template@));
                true
            },
        }
    }

    /// A copy of the template with id `id`, if there is one.
    pub fn get(&self, id: &str) -> (r: Option<ContainerTemplate>)
        requires
            self.wf(),
        ensures
            match r {
                None => !templates_by_id(self@).contains_key(id@),
                Some(t) => templates_by_id(self@).contains_key(id@) && t@ == templates_by_id(
                    self@,
                )[id@],
            },
    {
        let key = String::from_str(id);
        match self.position(&key) {
            None => None,
            Some(i) => {
                let t = self.templates[i].copy();
                proof {
                    lemma_templates_by_id_at(self@, i as int);
                }
                Some(t)
            },
        }
    }

    /// Copies of all templates, in the order they were registered.
    pub fn list(&self) -> (r: Vec<ContainerTemplate>)
        ensures
            r@.map_values(|t: ContainerTemplate| t@) == self@,
    {
        let mut r: Vec<ContainerTemplate> = Vec::new();
        let mut i: usize = 0;
        while i < self.templates.len()
            invariant
                i <= self.templates@.len(),
                r@.len() == i,
                forall|j: int| 0 <= j < i ==> #[trigger] r@[j]@ == self@[j],
            decreases self.templates@.len() - i,
        {
            r.push(self.templates[i].copy());
            i = i + 1;
        }
        assert(r@.map_values(|t: ContainerTemplate| t@) =~= self@);
        r
    }

    /// The number of templates.
    pub fn len(&self) -> (r: usize)
        ensures
            r == self@.len(),
    {
        self.templates.len()
    }

    /// A catalog holding the built-in templates: `cybersec-lab`,
    /// `dev-environment`, `data-science`, `ml-training` and `web-pentest`.
    pub fn with_builtin_templates() -> (r: TemplateCatalog)
        ensures
            r.wf(),
            r@.len() == 5,
            is_cybersec_lab_template(r@[0]),
            is_dev_environment_template(r@[1]),
            is_data_science_template(r@[2]),
            is_ml_training_template(r@[3]),
            is_web_pentest_template(r@[4]),
    {
        let templates = vec![
            cybersec_lab_template(),
            dev_environment_template(),
            data_science_template(),
            ml_training_template(),
            web_pentest_template(),
        ];
        let r = TemplateCatalog { templates };
        proof {
            reveal_strlit("cybersec-lab");
            reveal_strlit("dev-environment");
            reveal_strlit("data-science");
            reveal_strlit("ml-training");
            reveal_strlit("web-pentest");
            assert(r@[0].id[0] != r@[1].id[0]);
            assert(r@[0].id[0] != r@[2].id[0]);
            assert(r@[0].id[0] != r@[3].id[0]);
            assert(r@[0].id[0] != r@[4].id[0]);
            assert(r@[1].id[0] != r@[2].id[0] || r@[1].id[1] != r@[2].id[1]);
            assert(r@[1].id[0] != r@[3].id[0]);
            assert(r@[1].id[0] != r@[4].id[0]);
            assert(r@[2].id[0] != r@[3].id[0]);
            assert(r@[2].id[0] != r@[4].id[0]);
            assert(r@[3].id[0] != r@[4].id[0]);
        }
        r
    }
}

/// Under unique ids, the template at position `i` is the one its id maps to.
pub proof fn lemma_templates_by_id_at(s: Seq<TemplateView>, i: int)
    requires
        ids_unique(s),
        0 <= i < s.len(),
    ensures
        templates_by_id(s).contains_key(s[i].id),
        templates_by_id(s)[s[i].id] == s[i],
{
    assert(has_template(s, s[i].id));
    let j = choose|j: int| 0 <= j < s.len() && s[j].id == s[i].id;
    assert(j == i);
}

} // verus!
