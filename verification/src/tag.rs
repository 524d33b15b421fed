use vstd::prelude::*;

verus! {

/// A supported display language. The order of the variants is the fixed
/// priority order used when a label is resolved to a single text.
#[derive(Clone, Copy, PartialEq, Eq, Structural, Debug)]
pub enum Lang {
    ZH,
    EN,
    JA,
    KO,
    FR,
    RU,
    ES,
    PT,
    IT,
    DE,
    TR,
    AR,
}

/// A localized display label: one optional text slot per supported language.
/// A label must have at least one populated slot before it is displayed.
#[derive(Debug, Default, PartialEq, PartialOrd, Eq, Ord)]
pub struct Tag {
    info_zh: Option<String>,
    info_en: Option<String>,
    info_ja: Option<String>,
    info_ko: Option<String>,
    info_fr: Option<String>,
    info_ru: Option<String>,
    info_es: Option<String>,
    info_pt: Option<String>,
    info_it: Option<String>,
    info_de: Option<String>,
    info_tr: Option<String>,
    info_ar: Option<String>,
}

impl Tag {
    /// The text stored in the slot for language `l`, as a sequence of characters.
    pub closed spec fn slot(&self, l: Lang) -> Option<Seq<char>> {
        let o = match l {
            Lang::ZH => &self.info_zh,
            Lang::EN => &self.info_en,
            Lang::JA => &self.info_ja,
            Lang::KO => &self.info_ko,
            Lang::FR => &self.info_fr,
            Lang::RU => &self.info_ru,
            Lang::ES => &self.info_es,
            Lang::PT => &self.info_pt,
            Lang::IT => &self.info_it,
            Lang::DE => &self.info_de,
            Lang::TR => &self.info_tr,
            Lang::AR => &self.info_ar,
        };
        match o {
            Some(s) => Some(s@),
            None => None,
        }
    }

    /// At least one language slot holds a text.
    pub open spec fn populated(&self) -> bool {
        exists|l: Lang| self.slot(l) is Some
    }

    /// The text that `string` resolves to: the populated slot of highest
    /// priority, in the fixed order of `Lang`'s variants.
    pub open spec fn display_spec(&self) -> Seq<char> {
        if self.slot(Lang::ZH) is Some {
            self.slot(Lang::ZH)->0
        } else if self.slot(Lang::EN) is Some {
            self.slot(Lang::EN)->0
        } else if self.slot(Lang::JA) is Some {
            self.slot(Lang::JA)->0
        } else if self.slot(Lang::KO) is Some {
            self.slot(Lang::KO)->0
        } else if self.slot(Lang::FR) is Some {
            self.slot(Lang::FR)->0
        } else if self.slot(Lang::RU) is Some {
            self.slot(Lang::RU)->0
        } else if self.slot(Lang::ES) is Some {
            self.slot(Lang::ES)->0
        } else if self.slot(Lang::PT) is Some {
            self.slot(Lang::PT)->0
        } else if self.slot(Lang::IT) is Some {
            self.slot(Lang::IT)->0
        } else if self.slot(Lang::DE) is Some {
            self.slot(Lang::DE)->0
        } else if self.slot(Lang::TR) is Some {
            self.slot(Lang::TR)->0
        } else {
            self.slot(Lang::AR)->0
        }
    }

    /// Whether at least one language slot holds a text.
    pub fn is_populated(&self) -> (b: bool)
        ensures
            b == self.populated(),
    {
        let b = self.info_zh.is_some() || self.info_en.is_some() || self.info_ja.is_some()
            || self.info_ko.is_some() || self.info_fr.is_some() || self.info_ru.is_some()
            || self.info_es.is_some() || self.info_pt.is_some() || self.info_it.is_some()
            || self.info_de.is_some() || self.info_tr.is_some() || self.info_ar.is_some();
        proof {
            if b {
                assert(self.slot(Lang::ZH) is Some || self.slot(Lang::EN) is Some || self.slot(
                    Lang::JA,
                ) is Some || self.slot(Lang::KO) is Some || self.slot(Lang::FR) is Some
                    || self.slot(Lang::RU) is Some || self.slot(Lang::ES) is Some || self.slot(
                    Lang::PT,
                ) is Some || self.slot(Lang::IT) is Some || self.slot(Lang::DE) is Some
                    || self.slot(Lang::TR) is Some || self.slot(Lang::AR) is Some);
            } else {
                assert forall|l: Lang| !(self.slot(l) is Some) by {}
            }
        }
        b
    }

    /// Resolve the label to its display text: the populated slot of highest
    /// priority. Displaying a label with no populated slot is a contract
    /// violation, so it is excluded by precondition.
    pub fn string(&self) -> (r: String)
        requires
            self.populated(),
        ensures
            r@ == self.display_spec(),
    {
        if let Some(t) = &self.info_zh {
            t.clone()
        } else if let Some(t) = &self.info_en {
            t.clone()
        } else if let Some(t) = &self.info_ja {
            t.clone()
        } else if let Some(t) = &self.info_ko {
            t.clone()
        } else if let Some(t) = &self.info_fr {
            t.clone()
        } else if let Some(t) = &self.info_ru {
            t.clone()
        } else if let Some(t) = &self.info_es {
            t.clone()
        } else if let Some(t) = &self.info_pt {
            t.clone()
        } else if let Some(t) = &self.info_it {
            t.clone()
        } else if let Some(t) = &self.info_de {
            t.clone()
        } else if let Some(t) = &self.info_tr {
            t.clone()
        } else if let Some(t) = &self.info_ar {
            t.clone()
        } else {
            proof {
                assert(!self.populated());
            }
            // unreachable under the precondition
            String::new()
        }
    }

    /// An empty label: every slot unpopulated.
    pub fn new() -> (r: Self)
        ensures
            forall|l: Lang| r.slot(l) is None,
    {
        Self {
            info_zh: None,
            info_en: None,
            info_ja: None,
            info_ko: None,
            info_fr: None,
            info_ru: None,
            info_es: None,
            info_pt: None,
            info_it: None,
            info_de: None,
            info_tr: None,
            info_ar: None,
        }
    }

    /// A label with only the `zh` slot populated.
    pub fn zh(text: &str) -> (r: Self)
        ensures
            r.slot(Lang::ZH) == Some(text@),
            forall|l: Lang| l != Lang::ZH ==> r.slot(l) is None,
    {
        Self {
            info_zh: Some(text.to_owned()),
            info_en: None,
            info_ja: None,
            info_ko: None,
            info_fr: None,
            info_ru: None,
            info_es: None,
            info_pt: None,
            info_it: None,
            info_de: None,
            info_tr: None,
            info_ar: None,
        }
    }

    /// Populate the `en` slot, keeping every other slot as it was.
    pub fn en(self, text: &str) -> (r: Self)
        ensures
            r.slot(Lang::EN) == Some(text@),
            forall|l: Lang| l != Lang::EN ==> r.slot(l) == self.slot(l),
    {
        Self { info_en: Some(text.to_owned()), ..self }
    }

    /// Populate the `ja` slot, keeping every other slot as it was.
    pub fn ja(self, text: &str) -> (r: Self)
        ensures
            r.slot(Lang::JA) == Some(text@),
            forall|l: Lang| l != Lang::JA ==> r.slot(l) == self.slot(l),
    {
        Self { info_ja: Some(text.to_owned()), ..self }
    }

    /// Populate the `ko` slot, keeping every other slot as it was.
    pub fn ko(self, text: &str) -> (r: Self)
        ensures
            r.slot(Lang::KO) == Some(text@),
            forall|l: Lang| l != Lang::KO ==> r.slot(l) == self.slot(l),
    {
        Self { info_ko: Some(text.to_owned()), ..self }
    }

    /// Populate the `fr` slot, keeping every other slot as it was.
    pub fn fr(self, text: &str) -> (r: Self)
        ensures
            r.slot(Lang::FR) == Some(text@),
            forall|l: Lang| l != Lang::FR ==> r.slot(l) == self.slot(l),
    {
        Self { info_fr: Some(text.to_owned()), ..self }
    }

    /// Populate the `ru` slot, keeping every other slot as it was.
    pub fn ru(self, text: &str) -> (r: Self)
        ensures
            r.slot(Lang::RU) == Some(text@),
            forall|l: Lang| l != Lang::RU ==> r.slot(l) == self.slot(l),
    {
        Self { info_ru: Some(text.to_owned()), ..self }
    }

    /// Populate the `es` slot, keeping every other slot as it was.
    pub fn es(self, text: &str) -> (r: Self)
        ensures
            r.slot(Lang::ES) == Some(text@),
            forall|l: Lang| l != Lang::ES ==> r.slot(l) == self.slot(l),
    {
        Self { info_es: Some(text.to_owned()), ..self }
    }

    /// Populate the `pt` slot, keeping every other slot as it was.
    pub fn pt(self, text: &str) -> (r: Self)
        ensures
            r.slot(Lang::PT) == Some(text@),
            forall|l: Lang| l != Lang::PT ==> r.slot(l) == self.slot(l),
    {
        Self { info_pt: Some(text.to_owned()), ..self }
    }

    /// Populate the `it` slot, keeping every other slot as it was.
    pub fn it(self, text: &str) -> (r: Self)
        ensures
            r.slot(Lang::IT) == Some(text@),
            forall|l: Lang| l != Lang::IT ==> r.slot(l) == self.slot(l),
    {
        Self { info_it: Some(text.to_owned()), ..self }
    }

    /// Populate the `de` slot, keeping every other slot as it was.
    pub fn de(self, text: &str) -> (r: Self)
        ensures
            r.slot(Lang::DE) == Some(text@),
            forall|l: Lang| l != Lang::DE ==> r.slot(l) == self.slot(l),
    {
        Self { info_de: Some(text.to_owned()), ..self }
    }

    /// Populate the `tr` slot, keeping every other slot as it was.
    pub fn tr(self, text: &str) -> (r: Self)
        ensures
            r.slot(Lang::TR) == Some(text@),
            forall|l: Lang| l != Lang::TR ==> r.slot(l) == self.slot(l),
    {
        Self { info_tr: Some(text.to_owned()), ..self }
    }

    /// Populate the `ar` slot, keeping every other slot as it was.
    pub fn ar(self, text: &str) -> (r: Self)
        ensures
            r.slot(Lang::AR) == Some(text@),
            forall|l: Lang| l != Lang::AR ==> r.slot(l) == self.slot(l),
    {
        Self { info_ar: Some(text.to_owned()), ..self }
    }

    /// Finish building: the label is returned unchanged.
    pub fn build(self) -> (r: Self)
        ensures
            r == self,
    {
        self
    }
}

impl Clone for Tag {
    /// A clone holds the same text in every slot.
    fn clone(&self) -> (r: Self)
        ensures
            forall|l: Lang| r.slot(l) == self.slot(l),
    {
        Self {
            info_zh: clone_slot(&self.info_zh),
            info_en: clone_slot(&self.info_en),
            info_ja: clone_slot(&self.info_ja),
            info_ko: clone_slot(&self.info_ko),
            info_fr: clone_slot(&self.info_fr),
            info_ru: clone_slot(&self.info_ru),
            info_es: clone_slot(&self.info_es),
            info_pt: clone_slot(&self.info_pt),
            info_it: clone_slot(&self.info_it),
            info_de: clone_slot(&self.info_de),
            info_tr: clone_slot(&self.info_tr),
            info_ar: clone_slot(&self.info_ar),
        }
    }
}

/// Copy an optional text, preserving its view.
fn clone_slot(o: &Option<String>) -> (r: Option<String>)
    ensures
        r is Some <==> o is Some,
        r is Some ==> r->0@ == o->0@,
{
    match o {
        Some(s) => Some(s.clone()),
        None => None,
    }
}


/// Tag priority: a label with the `zh` slot set displays the `zh` text,
/// whatever else is set; one with the `en` slot set but not `zh` displays
/// the `en` text.
pub proof fn lemma_tag_priority(t: Tag)
    ensures
        t.slot(Lang::ZH) is Some ==> t.display_spec() == t.slot(Lang::ZH)->0,
        t.slot(Lang::ZH) is None && t.slot(Lang::EN) is Some ==> t.display_spec() == t.slot(
            Lang::EN,
        )->0,
{
}

} // verus!
