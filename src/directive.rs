//! Reads the `named_ctor(...)` directives attached to a declaration.

use vstd::prelude::*;
use vstd::string::*;
use crate::decl::{Attribute, MetaItem, MetaValue};
use crate::error::{ErrorView, MacroError};
use crate::ident::{is_ident, is_valid_ident};

verus! {

/// Which conversion is generated from the mirror structure.
#[derive(PartialEq, Eq, Structural, Clone, Copy, Debug)]
pub enum ConstructorType {
    /// An associated function `new` taking the mirror structure.
    New,
    /// An `impl From<mirror> for original`.
    From,
}

/// The configuration read from the directives.
#[derive(Debug)]
pub struct StructValuesAttr {
    /// The mirror structure's name, when the directives set one.
    pub name: Option<String>,
    pub constructor_type: ConstructorType,
}

pub ghost struct ConfigView {
    pub name: Option<Seq<char>>,
    pub constructor_type: ConstructorType,
}

impl View for StructValuesAttr {
    type V = ConfigView;

    open spec fn view(&self) -> ConfigView {
        ConfigView { name: self.name.deep_view(), constructor_type: self.constructor_type }
    }
}

/// The configuration when no directive says otherwise.
pub open spec fn default_config() -> ConfigView {
    ConfigView { name: None, constructor_type: ConstructorType::From }
}

/// The attribute is a `named_ctor` directive.
pub open spec fn is_directive(a: Attribute) -> bool {
    match a.path {
        Some(p) => p@ == "named_ctor"@,
        None => false,
    }
}

/// The effect of one directive argument on the configuration.
pub open spec fn apply_item(cfg: ConfigView, m: MetaItem) -> Result<ConfigView, ErrorView> {
    match m.key {
        None => Err(ErrorView::UnexpectedAttribute),
        Some(k) => if k@ == "name"@ {
            match m.value {
                MetaValue::Str(v) => Ok(ConfigView { name: Some(v@), ..cfg }),
                _ => Err(ErrorView::InvalidName),
            }
        } else if k@ == "constructor"@ {
            match m.value {
                MetaValue::Str(v) => if v@ == "new"@ {
                    Ok(ConfigView { constructor_type: ConstructorType::New, ..cfg })
                } else if v@ == "from"@ {
                    Ok(ConfigView { constructor_type: ConstructorType::From, ..cfg })
                } else {
                    Err(ErrorView::InvalidConstructorValue(v@))
                },
                _ => Err(ErrorView::InvalidConstructor),
            }
        } else {
            Err(ErrorView::UnexpectedAttribute)
        },
    }
}

/// The arguments applied in order; the first failure stops the reading.
pub open spec fn apply_items(cfg: ConfigView, items: Seq<MetaItem>) -> Result<
    ConfigView,
    ErrorView,
>
    decreases items.len(),
{
    if items.len() == 0 {
        Ok(cfg)
    } else {
        match apply_items(cfg, items.drop_last()) {
            Ok(c) => apply_item(c, items.last()),
            Err(e) => Err(e),
        }
    }
}

/// The effect of one attribute: others than the directive are ignored.
pub open spec fn apply_attr(cfg: ConfigView, a: Attribute) -> Result<ConfigView, ErrorView> {
    if !is_directive(a) {
        Ok(cfg)
    } else {
        match a.args {
            None => Err(ErrorView::MalformedDirective),
            Some(items) => apply_items(cfg, items@),
        }
    }
}

pub open spec fn apply_attrs(cfg: ConfigView, attrs: Seq<Attribute>) -> Result<
    ConfigView,
    ErrorView,
>
    decreases attrs.len(),
{
    if attrs.len() == 0 {
        Ok(cfg)
    } else {
        match apply_attrs(cfg, attrs.drop_last()) {
            Ok(c) => apply_attr(c, attrs.last()),
            Err(e) => Err(e),
        }
    }
}

/// The configuration that the attributes of a declaration give.
pub open spec fn interpret(attrs: Seq<Attribute>) -> Result<ConfigView, ErrorView> {
    apply_attrs(default_config(), attrs)
}

/// The mirror structure's name: the one configured, else `_` and the
/// original's name.
pub open spec fn aux_name(cfg: ConfigView, original: Seq<char>) -> Seq<char> {
    match cfg.name {
        Some(n) => n,
        None => "_"@ + original,
    }
}

/// Once an argument fails, the arguments after it change nothing.
proof fn lemma_items_error_stays(cfg: ConfigView, items: Seq<MetaItem>, k: int)
    requires
        0 <= k <= items.len(),
        apply_items(cfg, items.take(k)) is Err,
    ensures
        apply_items(cfg, items) == apply_items(cfg, items.take(k)),
    decreases items.len() - k,
{
    if k == items.len() {
        assert(items.take(k) == items);
    } else {
        assert(items.take(k + 1).drop_last() == items.take(k));
        lemma_items_error_stays(cfg, items, k + 1);
    }
}

/// Once an attribute fails, the attributes after it change nothing.
proof fn lemma_attrs_error_stays(cfg: ConfigView, attrs: Seq<Attribute>, k: int)
    requires
        0 <= k <= attrs.len(),
        apply_attrs(cfg, attrs.take(k)) is Err,
    ensures
        apply_attrs(cfg, attrs) == apply_attrs(cfg, attrs.take(k)),
    decreases attrs.len() - k,
{
    if k == attrs.len() {
        assert(attrs.take(k) == attrs);
    } else {
        assert(attrs.take(k + 1).drop_last() == attrs.take(k));
        lemma_attrs_error_stays(cfg, attrs, k + 1);
    }
}

impl ConstructorType {
    /// The constructor kind that a `constructor` value names.
    pub fn from_value(s: &String) -> (r: Result<ConstructorType, MacroError>)
        ensures
            s@ == "new"@ ==> r == Ok::<ConstructorType, MacroError>(ConstructorType::New),
            s@ != "new"@ && s@ == "from"@ ==> r == Ok::<ConstructorType, MacroError>(
                ConstructorType::From,
            ),
            s@ != "new"@ && s@ != "from"@ ==> r.is_err() && r->Err_0@
                == ErrorView::InvalidConstructorValue(s@),
    {
        let new_word = String::from_str("new");
        let from_word = String::from_str("from");
        if *s == new_word {
            Ok(ConstructorType::New)
        } else if *s == from_word {
            Ok(ConstructorType::From)
        } else {
            Err(MacroError::InvalidConstructorValue(s.clone()))
        }
    }
}

impl StructValuesAttr {
    /// The configuration when no directive says otherwise.
    pub fn default_config() -> (r: StructValuesAttr)
        ensures
            r@ == default_config(),
    {
        StructValuesAttr { name: None, constructor_type: ConstructorType::From }
    }

    /// The string that a `key = "value"` argument carries, if any.
    pub fn extract_string(value: &MetaValue) -> (r: Option<String>)
        ensures
            match value {
                MetaValue::Str(v) => r is Some && r->Some_0@ == v@,
                _ => r is None,
            },
    {
        match value {
            MetaValue::Str(v) => Some(v.clone()),
            _ => None,
        }
    }

    /// The mirror structure's name for a structure named `original`,
    /// provided it is an identifier.
    pub fn name_as_ident(&self, original: &String) -> (r: Result<String, MacroError>)
        ensures
            is_ident(aux_name(self@, original@)) ==> r is Ok && r->Ok_0@ == aux_name(
                self@,
                original@,
            ),
            !is_ident(aux_name(self@, original@)) ==> r is Err && r->Err_0@
                == ErrorView::InvalidIdent(aux_name(self@, original@)),
    {
        let name = match &self.name {
            Some(n) => n.clone(),
            None => {
                let mut n = String::from_str("_");
                n.append(original.as_str());
                n
            },
        };
        if is_valid_ident(name.as_str()) {
            Ok(name)
        } else {
            Err(MacroError::InvalidIdent(name))
        }
    }

    /// Applies one directive argument to this configuration.
    pub fn apply(&mut self, m: &MetaItem) -> (r: Result<(), MacroError>)
        ensures
            match apply_item(old(self)@, *m) {
                Ok(c) => r is Ok && final(self)@ == c,
                Err(e) => r is Err && r->Err_0@ == e,
            },
    {
        let name_word = String::from_str("name");
        let constructor_word = String::from_str("constructor");
        match &m.key {
            None => Err(MacroError::UnexpectedAttribute),
            Some(k) => {
                if *k == name_word {
                    match Self::extract_string(&m.value) {
                        Some(v) => {
                            self.name = Some(v);
                            Ok(())
                        },
                        None => Err(MacroError::InvalidName),
                    }
                } else if *k == constructor_word {
                    match Self::extract_string(&m.value) {
                        Some(v) => {
                            match ConstructorType::from_value(&v) {
                                Ok(c) => {
                                    self.constructor_type = c;
                                    Ok(())
                                },
                                Err(e) => Err(e),
                            }
                        },
                        None => Err(MacroError::InvalidConstructor),
                    }
                } else {
                    Err(MacroError::UnexpectedAttribute)
                }
            },
        }
    }

    /// Reads the configuration from the attributes of a declaration:
    /// `named_ctor` directives are applied in order, later arguments
    /// overriding earlier ones, and any other attribute is ignored.
    pub fn new(attrs: &Vec<Attribute>) -> (r: Result<StructValuesAttr, MacroError>)
        ensures
            match interpret(attrs@) {
                Ok(c) => r is Ok && r->Ok_0@ == c,
                Err(e) => r is Err && r->Err_0@ == e,
            },
    {
        let mut cfg = Self::default_config();
        let directive_word = String::from_str("named_ctor");
        let mut i: usize = 0;
        while i < attrs.len()
            invariant
                0 <= i <= attrs.len(),
                directive_word@ == "named_ctor"@,
                apply_attrs(default_config(), attrs@.take(i as int)) == Ok::<
                    ConfigView,
                    ErrorView,
                >(cfg@),
            decreases attrs.len() - i,
        {
            proof {
                assert(attrs@.take(i as int + 1).drop_last() == attrs@.take(i as int));
            }
            let a = &attrs[i];
            let matches_directive = match &a.path {
                Some(p) => *p == directive_word,
                None => false,
            };
            if matches_directive {
                match &a.args {
                    None => {
                        proof {
                            lemma_attrs_error_stays(default_config(), attrs@, i as int + 1);
                        }
                        return Err(MacroError::MalformedDirective);
                    },
                    Some(items) => {
                        let ghost cfg_start = cfg@;
                        let mut j: usize = 0;
                        while j < items.len()
                            invariant
                                0 <= j <= items.len(),
                                0 <= i < attrs.len(),
                                attrs@[i as int] == *a,
                                is_directive(*a),
                                a.args == Some(*items),
                                apply_attrs(default_config(), attrs@.take(i as int)) == Ok::<
                                    ConfigView,
                                    ErrorView,
                                >(cfg_start),
                                apply_items(cfg_start, items@.take(j as int)) == Ok::<
                                    ConfigView,
                                    ErrorView,
                                >(cfg@),
                            decreases items.len() - j,
                        {
                            proof {
                                assert(items@.take(j as int + 1).drop_last() == items@.take(
                                    j as int,
                                ));
                            }
                            match cfg.apply(&items[j]) {
                                Ok(()) => {},
                                Err(e) => {
                                    proof {
                                        lemma_items_error_stays(cfg_start, items@, j as int + 1);
                                        assert(attrs@.take(i as int + 1).drop_last() == attrs@.take(
                                            i as int,
                                        ));
                                        lemma_attrs_error_stays(
                                            default_config(),
                                            attrs@,
                                            i as int + 1,
                                        );
                                    }
                                    return Err(e);
                                },
                            }
                            j = j + 1;
                        }
                        proof {
                            assert(items@.take(items@.len() as int) == items@);
                        }
                    },
                }
            }
            i = i + 1;
        }
        proof {
            assert(attrs@.take(attrs@.len() as int) == attrs@);
        }
        Ok(cfg)
    }
}

} // verus!
