pub mod formation_id;
pub mod get;
pub mod id;

use vstd::prelude::*;

use crate::model::opt_seq;

verus! {

broadcast use vstd::string::to_string_from_display_ensures_for_str;

/// What an [`AdminFormation`] holds.
pub struct AdminFormationModel {
    pub id: u64,
    pub name: Seq<char>,
    pub description: Seq<char>,
    pub modules: Option<Seq<AdminFormationModule>>,
}

/// A course of the catalogue, as the admin routes return it.
#[derive(Debug)]
pub struct AdminFormation {
    id: u64,
    name: String,
    description: String,
    modules: Option<Vec<AdminFormationModule>>,
}

impl View for AdminFormation {
    type V = AdminFormationModel;

    closed spec fn view(&self) -> AdminFormationModel {
        AdminFormationModel {
            id: self.id,
            name: self.name@,
            description: self.description@,
            modules: opt_seq(self.modules),
        }
    }
}

impl AdminFormation {
    pub fn new(
        id: u64,
        name: &str,
        description: &str,
        modules: Option<Vec<AdminFormationModule>>,
    ) -> (r: Self)
        ensures
            r@ == (AdminFormationModel {
                id: id,
                name: name@,
                description: description@,
                modules: opt_seq(modules),
            }),
    {
        Self { id, name: name.to_string(), description: description.to_string(), modules }
    }

    pub fn id(&self) -> (r: u64)
        ensures
            r == self@.id,
    {
        self.id
    }

    pub fn name(&self) -> (r: &str)
        ensures
            r@ == self@.name,
    {
        self.name.as_str()
    }

    pub fn description(&self) -> (r: &str)
        ensures
            r@ == self@.description,
    {
        self.description.as_str()
    }

    pub fn modules(&self) -> (r: Option<&Vec<AdminFormationModule>>)
        ensures
            match r {
                Some(v) => self@.modules == Some(v@),
                None => self@.modules is None,
            },
    {
        match &self.modules {
            Some(v) => Some(v),
            None => None,
        }
    }
}

/// What an [`AdminFormationModule`] holds.
pub struct AdminFormationModuleModel {
    pub id: u64,
    pub name: Seq<char>,
    pub description: Seq<char>,
    pub content: Option<Seq<AdminModuleContent>>,
}

/// A module of a course, as the admin routes return it.
#[derive(Debug)]
pub struct AdminFormationModule {
    id: u64,
    name: String,
    description: String,
    content: Option<Vec<AdminModuleContent>>,
}

impl View for AdminFormationModule {
    type V = AdminFormationModuleModel;

    closed spec fn view(&self) -> AdminFormationModuleModel {
        AdminFormationModuleModel {
            id: self.id,
            name: self.name@,
            description: self.description@,
            content: opt_seq(self.content),
        }
    }
}

impl AdminFormationModule {
    pub fn new(
        id: u64,
        name: &str,
        description: &str,
        content: Option<Vec<AdminModuleContent>>,
    ) -> (r: Self)
        ensures
            r@ == (AdminFormationModuleModel {
                id: id,
                name: name@,
                description: description@,
                content: opt_seq(content),
            }),
    {
        Self { id, name: name.to_string(), description: description.to_string(), content }
    }

    pub fn id(&self) -> (r: u64)
        ensures
            r == self@.id,
    {
        self.id
    }

    pub fn name(&self) -> (r: &str)
        ensures
            r@ == self@.name,
    {
        self.name.as_str()
    }

    pub fn description(&self) -> (r: &str)
        ensures
            r@ == self@.description,
    {
        self.description.as_str()
    }

    pub fn content(&self) -> (r: Option<&Vec<AdminModuleContent>>)
        ensures
            match r {
                Some(v) => self@.content == Some(v@),
                None => self@.content is None,
            },
    {
        match &self.content {
            Some(v) => Some(v),
            None => None,
        }
    }
}

/// What an [`AdminModuleContent`] holds.
pub struct AdminModuleContentModel {
    pub id: u64,
    pub file_name: Seq<char>,
    pub file_type: Seq<char>,
}

/// An attachment of a module, as the admin routes return it.
#[derive(Debug)]
pub struct AdminModuleContent {
    id: u64,
    file_name: String,
    file_type: String,
}

impl View for AdminModuleContent {
    type V = AdminModuleContentModel;

    closed spec fn view(&self) -> AdminModuleContentModel {
        AdminModuleContentModel {
            id: self.id,
            file_name: self.file_name@,
            file_type: self.file_type@,
        }
    }
}

impl AdminModuleContent {
    pub fn new(id: u64, file_name: &str, file_type: &str) -> (r: Self)
        ensures
            r@ == (AdminModuleContentModel {
                id: id,
                file_name: file_name@,
                file_type: file_type@,
            }),
    {
        Self { id, file_name: file_name.to_string(), file_type: file_type.to_string() }
    }

    pub fn id(&self) -> (r: u64)
        ensures
            r == self@.id,
    {
        self.id
    }

    pub fn file_name(&self) -> (r: &str)
        ensures
            r@ == self@.file_name,
    {
        self.file_name.as_str()
    }

    pub fn file_type(&self) -> (r: &str)
        ensures
            r@ == self@.file_type,
    {
        self.file_type.as_str()
    }
}

} // verus!
