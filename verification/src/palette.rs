//! The go-to palette: a list of verbs and places.

use vstd::prelude::*;

verus! {

/// Where a palette row leads.
#[derive(Debug)]
pub enum Target {
    Forum(u32, String),
    QuickNode(u32, String),
    Latest,
    NewThread(u32),
    MarkForumRead(u32),
    Inbox,
    Alerts,
    MediaGallery,
    Resources,
    Search,
    SignOut,
    Quit,
    Update,
    Member(u32, String),
}

#[verifier::ext_equal]
pub enum TargetModel {
    Forum(u32, Seq<char>),
    QuickNode(u32, Seq<char>),
    Latest,
    NewThread(u32),
    MarkForumRead(u32),
    Inbox,
    Alerts,
    MediaGallery,
    Resources,
    Search,
    SignOut,
    Quit,
    Update,
    Member(u32, Seq<char>),
}

impl View for Target {
    type V = TargetModel;

    open spec fn view(&self) -> TargetModel {
        match *self {
            Target::Forum(id, title) => TargetModel::Forum(id, title@),
            Target::QuickNode(id, title) => TargetModel::QuickNode(id, title@),
            Target::Latest => TargetModel::Latest,
            Target::NewThread(id) => TargetModel::NewThread(id),
            Target::MarkForumRead(id) => TargetModel::MarkForumRead(id),
            Target::Inbox => TargetModel::Inbox,
            Target::Alerts => TargetModel::Alerts,
            Target::MediaGallery => TargetModel::MediaGallery,
            Target::Resources => TargetModel::Resources,
            Target::Search => TargetModel::Search,
            Target::SignOut => TargetModel::SignOut,
            Target::Quit => TargetModel::Quit,
            Target::Update => TargetModel::Update,
            Target::Member(id, name) => TargetModel::Member(id, name@),
        }
    }
}

/// A palette row.
#[derive(Debug)]
pub struct Item {
    pub title: String,
    /// The key that does the same, or empty.
    pub key: String,
    pub target: Target,
}

#[verifier::ext_equal]
pub struct ItemModel {
    pub title: Seq<char>,
    pub key: Seq<char>,
    pub target: TargetModel,
}

impl View for Item {
    type V = ItemModel;

    open spec fn view(&self) -> ItemModel {
        ItemModel { title: self.title@, key: self.key@, target: self.target@ }
    }
}

/// The open palette.
#[derive(Debug)]
pub struct Palette {
    pub items: Vec<Item>,
    pub query: String,
    pub cursor: usize,
}

#[verifier::ext_equal]
pub struct PaletteModel {
    pub items: Seq<ItemModel>,
    pub query: Seq<char>,
    pub cursor: usize,
}

pub open spec fn items_of(v: Seq<Item>) -> Seq<ItemModel> {
    v.map_values(|i: Item| i@)
}

impl View for Palette {
    type V = PaletteModel;

    open spec fn view(&self) -> PaletteModel {
        PaletteModel { items: items_of(self.items@), query: self.query@, cursor: self.cursor }
    }
}

pub open spec fn opt_palette(p: Option<Palette>) -> Option<PaletteModel> {
    match p {
        Some(p) => Some(p@),
        None => None,
    }
}

} // verus!
