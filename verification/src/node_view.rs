//! Cards: what a node shows, and the cards of its children below it.

use vstd::prelude::*;
use vstd::string::*;

use crate::panel::{GroupModel, SlotValueModel, UiPanelGroup, UiSlotValue, WireScopeRef};
use crate::slot::{clone_text_opt, text_opt};

verus! {

/// What a product carries.
#[derive(Clone, Copy, Debug, PartialEq, Eq, Structural)]
pub enum UiProductKind {
    Visual,
    Control,
}

/// Which of a module's two products its hero shows.
#[derive(Clone, Copy, Debug, PartialEq, Eq, Structural)]
pub enum ModuleHeroProduct {
    Control,
    Visual,
}

/// A product a node makes, as a card previews it: its name, a line of detail,
/// whether it is tracked live, and the frame it is shown in.
#[derive(Debug, PartialEq, Eq)]
pub struct UiProducedProduct {
    pub kind: UiProductKind,
    pub name: String,
    pub detail: Option<String>,
    pub tracking: bool,
    pub frame: Option<(u32, u32)>,
}

/// What a [`UiProducedProduct`] says.
pub struct ProductModel {
    pub kind: UiProductKind,
    pub name: Seq<char>,
    pub detail: Option<Seq<char>>,
    pub tracking: bool,
    pub frame: Option<(u32, u32)>,
}

impl View for UiProducedProduct {
    type V = ProductModel;

    open spec fn view(&self) -> ProductModel {
        ProductModel {
            kind: self.kind,
            name: self.name@,
            detail: text_opt(self.detail),
            tracking: self.tracking,
            frame: self.frame,
        }
    }
}

impl Clone for UiProducedProduct {
    fn clone(&self) -> (r: Self)
        ensures
            r == *self,
    {
        UiProducedProduct {
            kind: self.kind,
            name: self.name.clone(),
            detail: clone_text_opt(&self.detail),
            tracking: self.tracking,
            frame: self.frame,
        }
    }
}

/// What an optional product says.
pub open spec fn product_opt(product: Option<UiProducedProduct>) -> Option<ProductModel> {
    match product {
        Some(p) => Some(p@),
        None => None,
    }
}

/// Where a binding of a bus channel comes from.
#[derive(Clone, Copy, Debug, PartialEq, Eq, Structural)]
pub enum UiBusSiteOrigin {
    Authored,
    Default,
    Panel,
}

/// One writer or reader of a bus channel.
#[derive(Debug, PartialEq, Eq)]
pub struct UiBusSiteView {
    pub node_label: String,
    pub slot: Option<String>,
    pub origin: UiBusSiteOrigin,
    pub publish: bool,
    pub shadowed: bool,
    pub child_scope: Option<String>,
    /// Who is asked to focus the node when the site is clicked.
    pub focus: Option<String>,
}

/// What a [`UiBusSiteView`] says.
pub struct SiteModel {
    pub node_label: Seq<char>,
    pub slot: Option<Seq<char>>,
    pub origin: UiBusSiteOrigin,
    pub publish: bool,
    pub shadowed: bool,
    pub child_scope: Option<Seq<char>>,
    pub focus: Option<Seq<char>>,
}

impl View for UiBusSiteView {
    type V = SiteModel;

    open spec fn view(&self) -> SiteModel {
        SiteModel {
            node_label: self.node_label@,
            slot: text_opt(self.slot),
            origin: self.origin,
            publish: self.publish,
            shadowed: self.shadowed,
            child_scope: text_opt(self.child_scope),
            focus: text_opt(self.focus),
        }
    }
}

impl Clone for UiBusSiteView {
    fn clone(&self) -> (r: Self)
        ensures
            r == *self,
    {
        UiBusSiteView {
            node_label: self.node_label.clone(),
            slot: clone_text_opt(&self.slot),
            origin: self.origin,
            publish: self.publish,
            shadowed: self.shadowed,
            child_scope: clone_text_opt(&self.child_scope),
            focus: clone_text_opt(&self.focus),
        }
    }
}

/// What each site of a list says.
pub open spec fn site_models(sites: Seq<UiBusSiteView>) -> Seq<SiteModel> {
    Seq::new(sites.len(), |i: int| sites[i]@)
}

/// Copies a list of sites.
pub fn clone_sites(sites: &Vec<UiBusSiteView>) -> (r: Vec<UiBusSiteView>)
    ensures
        r@ =~= sites@,
{
    let mut copies: Vec<UiBusSiteView> = Vec::new();
    let mut at: usize = 0;
    while at < sites.len()
        invariant
            at <= sites.len(),
            copies@ =~= sites@.take(at as int),
        decreases sites.len() - at,
    {
        copies.push(sites[at].clone());
        at += 1;
    }
    copies
}

/// No sites.
pub fn no_sites() -> (r: Vec<UiBusSiteView>)
    ensures
        site_models(r@) == Seq::<SiteModel>::empty(),
{
    let sites: Vec<UiBusSiteView> = Vec::new();
    assert(site_models(sites@) =~= Seq::<SiteModel>::empty());
    sites
}

/// A list of one site.
pub fn one_site(site: UiBusSiteView) -> (r: Vec<UiBusSiteView>)
    ensures
        site_models(r@) == seq![site@],
{
    let sites: Vec<UiBusSiteView> = vec![site];
    assert(site_models(sites@) =~= seq![site@]);
    sites
}

/// A list of two sites.
pub fn two_sites(first: UiBusSiteView, second: UiBusSiteView) -> (r: Vec<UiBusSiteView>)
    ensures
        site_models(r@) == seq![first@, second@],
{
    let sites: Vec<UiBusSiteView> = vec![first, second];
    assert(site_models(sites@) =~= seq![first@, second@]);
    sites
}

/// The picture of a channel that carries a product: what it is of, whether it is
/// tracked live, and the frame it is shown in, where that is not the usual one.
#[derive(Clone, Copy, Debug, PartialEq, Eq)]
pub struct UiBusChannelPreview {
    pub kind: UiProductKind,
    pub tracking: bool,
    pub frame: Option<(u32, u32)>,
}

/// A live picture of a product, in the usual frame.
pub fn tracked_preview(kind: UiProductKind) -> (r: UiBusChannelPreview)
    ensures
        r == (UiBusChannelPreview { kind, tracking: true, frame: None }),
{
    UiBusChannelPreview { kind, tracking: true, frame: None }
}

/// What an optional gradient holds.
pub open spec fn gradient_opt(gradient: Option<UiSlotValue>) -> Option<SlotValueModel> {
    match gradient {
        Some(value) => Some(value@),
        None => None,
    }
}

/// One channel of a scope's bus, with everything that writes and reads it.
#[derive(Debug, PartialEq, Eq)]
pub struct UiBusChannelView {
    pub scope: Option<WireScopeRef>,
    pub scope_label: Option<String>,
    pub name: String,
    pub kind: Option<String>,
    pub value: Option<String>,
    pub value_error: Option<String>,
    pub primary_visual: bool,
    pub contended: bool,
    pub preview: Option<UiBusChannelPreview>,
    /// The gradient on the channel, where it carries one.
    pub gradient: Option<UiSlotValue>,
    pub writers: Vec<UiBusSiteView>,
    pub readers: Vec<UiBusSiteView>,
}

/// What a [`UiBusChannelView`] says.
#[verifier::ext_equal]
pub struct ChannelModel {
    pub scope: Option<WireScopeRef>,
    pub scope_label: Option<Seq<char>>,
    pub name: Seq<char>,
    pub kind: Option<Seq<char>>,
    pub value: Option<Seq<char>>,
    pub value_error: Option<Seq<char>>,
    pub primary_visual: bool,
    pub contended: bool,
    pub preview: Option<UiBusChannelPreview>,
    pub gradient: Option<SlotValueModel>,
    pub writers: Seq<SiteModel>,
    pub readers: Seq<SiteModel>,
}

impl View for UiBusChannelView {
    type V = ChannelModel;

    open spec fn view(&self) -> ChannelModel {
        ChannelModel {
            scope: self.scope,
            scope_label: text_opt(self.scope_label),
            name: self.name@,
            kind: text_opt(self.kind),
            value: text_opt(self.value),
            value_error: text_opt(self.value_error),
            primary_visual: self.primary_visual,
            contended: self.contended,
            preview: self.preview,
            gradient: gradient_opt(self.gradient),
            writers: site_models(self.writers@),
            readers: site_models(self.readers@),
        }
    }
}

impl Clone for UiBusChannelView {
    fn clone(&self) -> (r: Self)
        ensures
            r@ == self@,
    {
        UiBusChannelView {
            scope: self.scope,
            scope_label: clone_text_opt(&self.scope_label),
            name: self.name.clone(),
            kind: clone_text_opt(&self.kind),
            value: clone_text_opt(&self.value),
            value_error: clone_text_opt(&self.value_error),
            primary_visual: self.primary_visual,
            contended: self.contended,
            preview: self.preview,
            gradient: match &self.gradient {
                Some(value) => Some(value.clone()),
                None => None,
            },
            writers: clone_sites(&self.writers),
            readers: clone_sites(&self.readers),
        }
    }
}

/// A scope's bus, channel by channel.
#[derive(Debug, PartialEq, Eq)]
pub struct UiBusView {
    pub channels: Vec<UiBusChannelView>,
}

impl View for UiBusView {
    type V = Seq<ChannelModel>;

    open spec fn view(&self) -> Seq<ChannelModel> {
        Seq::new(self.channels@.len(), |i: int| self.channels@[i]@)
    }
}

impl Clone for UiBusView {
    fn clone(&self) -> (r: Self)
        ensures
            r@ == self@,
    {
        let mut channels: Vec<UiBusChannelView> = Vec::new();
        let mut at: usize = 0;
        while at < self.channels.len()
            invariant
                at <= self.channels.len(),
                channels.len() == at,
                forall|i: int| 0 <= i < at ==> (#[trigger] channels@[i])@ == self.channels@[i]@,
            decreases self.channels.len() - at,
        {
            channels.push(self.channels[at].clone());
            at += 1;
        }
        let r = UiBusView { channels };
        assert(r@ =~= self@);
        r
    }
}

/// What an optional bus says.
pub open spec fn bus_opt(bus: Option<UiBusView>) -> Option<Seq<ChannelModel>> {
    match bus {
        Some(b) => Some(b@),
        None => None,
    }
}

/// A module's face: its product, its panel, and its wiring drawer.
#[derive(Debug, PartialEq, Eq)]
pub struct UiModuleFace {
    pub preview: Option<UiProducedProduct>,
    pub hero_choice: Option<ModuleHeroProduct>,
    pub panel: UiPanelGroup,
    pub wiring: Option<UiBusView>,
    pub wiring_open: bool,
    pub provenance: Option<String>,
    pub auto_save: Option<bool>,
}

/// What a [`UiModuleFace`] says.
#[verifier::ext_equal]
pub struct FaceModel {
    pub preview: Option<ProductModel>,
    pub hero_choice: Option<ModuleHeroProduct>,
    pub panel: GroupModel,
    pub wiring: Option<Seq<ChannelModel>>,
    pub wiring_open: bool,
    pub provenance: Option<Seq<char>>,
    pub auto_save: Option<bool>,
}

impl View for UiModuleFace {
    type V = FaceModel;

    open spec fn view(&self) -> FaceModel {
        FaceModel {
            preview: product_opt(self.preview),
            hero_choice: self.hero_choice,
            panel: self.panel@,
            wiring: bus_opt(self.wiring),
            wiring_open: self.wiring_open,
            provenance: text_opt(self.provenance),
            auto_save: self.auto_save,
        }
    }
}

impl Clone for UiModuleFace {
    fn clone(&self) -> (r: Self)
        ensures
            r@ == self@,
    {
        UiModuleFace {
            preview: match &self.preview {
                Some(p) => Some(p.clone()),
                None => None,
            },
            hero_choice: self.hero_choice,
            panel: self.panel.clone(),
            wiring: match &self.wiring {
                Some(bus) => Some(bus.clone()),
                None => None,
            },
            wiring_open: self.wiring_open,
            provenance: clone_text_opt(&self.provenance),
            auto_save: self.auto_save,
        }
    }
}

impl UiModuleFace {
    /// A face that is a panel and nothing else.
    pub fn new(panel: UiPanelGroup) -> (r: Self)
        ensures
            r@ == (FaceModel {
                preview: None,
                hero_choice: None,
                panel: panel@,
                wiring: None,
                wiring_open: false,
                provenance: None,
                auto_save: None,
            }),
    {
        UiModuleFace {
            preview: None,
            hero_choice: None,
            panel,
            wiring: None,
            wiring_open: false,
            provenance: None,
            auto_save: None,
        }
    }
}

/// The faces that carry no panel.
#[derive(Clone, Copy, Debug, PartialEq, Eq, Structural)]
pub enum UiPlainFaceKind {
    Shader,
    Playlist,
    Fixture,
    Effect,
    Clock,
    Button,
    Output,
}

/// A card's permanent face.
#[derive(Debug, PartialEq, Eq)]
pub enum UiNodeFace {
    Module(UiModuleFace),
    /// A leaf whose face is exactly its bound controls.
    Controls(UiPanelGroup),
    Plain(UiPlainFaceKind),
}

/// What a [`UiNodeFace`] says.
#[verifier::ext_equal]
pub enum NodeFaceModel {
    Module(FaceModel),
    Controls(GroupModel),
    Plain(UiPlainFaceKind),
}

impl View for UiNodeFace {
    type V = NodeFaceModel;

    open spec fn view(&self) -> NodeFaceModel {
        match *self {
            UiNodeFace::Module(face) => NodeFaceModel::Module(face@),
            UiNodeFace::Controls(group) => NodeFaceModel::Controls(group@),
            UiNodeFace::Plain(kind) => NodeFaceModel::Plain(kind),
        }
    }
}

impl Clone for UiNodeFace {
    fn clone(&self) -> (r: Self)
        ensures
            r@ == self@,
    {
        match self {
            UiNodeFace::Module(face) => UiNodeFace::Module(face.clone()),
            UiNodeFace::Controls(group) => UiNodeFace::Controls(group.clone()),
            UiNodeFace::Plain(kind) => UiNodeFace::Plain(*kind),
        }
    }
}

/// What an optional face says.
pub open spec fn face_opt(face: Option<UiNodeFace>) -> Option<NodeFaceModel> {
    match face {
        Some(f) => Some(f@),
        None => None,
    }
}

fn clone_face_opt(face: &Option<UiNodeFace>) -> (r: Option<UiNodeFace>)
    ensures
        face_opt(r) == face_opt(*face),
{
    match face {
        Some(f) => Some(f.clone()),
        None => None,
    }
}

/// What each product of a list says.
pub open spec fn product_models(products: Seq<UiProducedProduct>) -> Seq<ProductModel> {
    Seq::new(products.len(), |i: int| products[i]@)
}

/// A section of a child's card.
#[derive(Debug, PartialEq, Eq)]
pub enum UiNodeSection {
    /// The products the node makes.
    ProducedProducts(Vec<UiProducedProduct>),
}

/// What a [`UiNodeSection`] shows.
pub enum SectionModel {
    ProducedProducts(Seq<ProductModel>),
}

impl View for UiNodeSection {
    type V = SectionModel;

    open spec fn view(&self) -> SectionModel {
        match *self {
            UiNodeSection::ProducedProducts(products) => SectionModel::ProducedProducts(
                product_models(products@),
            ),
        }
    }
}

/// What each section of a list shows.
pub open spec fn section_models(sections: Seq<UiNodeSection>) -> Seq<SectionModel> {
    Seq::new(sections.len(), |i: int| sections[i]@)
}

impl Clone for UiNodeSection {
    fn clone(&self) -> (r: Self)
        ensures
            r@ == self@,
    {
        match self {
            UiNodeSection::ProducedProducts(products) => {
                let mut copies: Vec<UiProducedProduct> = Vec::new();
                let mut at: usize = 0;
                while at < products.len()
                    invariant
                        at <= products.len(),
                        copies@ =~= products@.take(at as int),
                    decreases products.len() - at,
                {
                    copies.push(products[at].clone());
                    at += 1;
                }
                assert(copies@ =~= products@);
                UiNodeSection::ProducedProducts(copies)
            },
        }
    }
}

/// Copies a list of sections.
pub fn clone_sections(sections: &Vec<UiNodeSection>) -> (r: Vec<UiNodeSection>)
    ensures
        section_models(r@) == section_models(sections@),
{
    let mut copies: Vec<UiNodeSection> = Vec::new();
    let mut at: usize = 0;
    while at < sections.len()
        invariant
            at <= sections.len(),
            copies.len() == at,
            forall|i: int| 0 <= i < at ==> (#[trigger] copies@[i])@ == sections@[i]@,
        decreases sections.len() - at,
    {
        copies.push(sections[at].clone());
        at += 1;
    }
    assert(section_models(copies@) =~= section_models(sections@));
    copies
}

/// The card of a child node, with the cards of its own children below it.
#[derive(Debug, PartialEq, Eq)]
pub struct UiNodeChild {
    pub label: String,
    pub kind: String,
    pub detail: String,
    pub summary: Option<String>,
    pub status: Option<String>,
    /// What stands on the card beside its face.
    pub sections: Vec<UiNodeSection>,
    pub face: Option<UiNodeFace>,
    pub children: Vec<UiNodeChild>,
}

/// What a [`UiNodeChild`] says.
#[verifier::ext_equal]
pub struct ChildModel {
    pub label: Seq<char>,
    pub kind: Seq<char>,
    pub detail: Seq<char>,
    pub summary: Option<Seq<char>>,
    pub status: Option<Seq<char>>,
    pub sections: Seq<SectionModel>,
    pub face: Option<NodeFaceModel>,
    pub children: Seq<ChildModel>,
}

impl UiNodeChild {
    /// What the card says.
    pub open spec fn model(&self) -> ChildModel
        decreases self,
    {
        ChildModel {
            label: self.label@,
            kind: self.kind@,
            detail: self.detail@,
            summary: text_opt(self.summary),
            status: text_opt(self.status),
            sections: section_models(self.sections@),
            face: face_opt(self.face),
            children: Seq::new(
                self.children@.len(),
                |i: int|
                    if 0 <= i < self.children@.len() {
                        self.children@[i].model()
                    } else {
                        arbitrary()
                    },
            ),
        }
    }
}

impl View for UiNodeChild {
    type V = ChildModel;

    open spec fn view(&self) -> ChildModel {
        self.model()
    }
}

/// What each card of a list says.
pub open spec fn child_models(children: Seq<UiNodeChild>) -> Seq<ChildModel> {
    Seq::new(children.len(), |i: int| children[i]@)
}

impl Clone for UiNodeChild {
    fn clone(&self) -> (r: Self)
        ensures
            r@ == self@,
        decreases self,
    {
        let mut children: Vec<UiNodeChild> = Vec::new();
        let mut at: usize = 0;
        while at < self.children.len()
            invariant
                at <= self.children.len(),
                children.len() == at,
                forall|i: int| 0 <= i < at ==> (#[trigger] children@[i])@ == self.children@[i]@,
            decreases self.children.len() - at,
        {
            let nested: &UiNodeChild = &self.children[at];
            children.push(nested.clone());
            at += 1;
        }
        let r = UiNodeChild {
            label: self.label.clone(),
            kind: self.kind.clone(),
            detail: self.detail.clone(),
            summary: clone_text_opt(&self.summary),
            status: clone_text_opt(&self.status),
            sections: clone_sections(&self.sections),
            face: clone_face_opt(&self.face),
            children,
        };
        assert(r@.children =~= self@.children);
        r
    }
}

/// The header row of a card.
#[derive(Debug, PartialEq, Eq)]
pub struct UiNodeHeader {
    pub name: String,
    pub kind: String,
    pub path: String,
    pub source: Option<String>,
    pub status: Option<String>,
    pub summary: Option<String>,
}

/// What a [`UiNodeHeader`] says.
pub struct HeaderModel {
    pub name: Seq<char>,
    pub kind: Seq<char>,
    pub path: Seq<char>,
    pub source: Option<Seq<char>>,
    pub status: Option<Seq<char>>,
    pub summary: Option<Seq<char>>,
}

impl View for UiNodeHeader {
    type V = HeaderModel;

    open spec fn view(&self) -> HeaderModel {
        HeaderModel {
            name: self.name@,
            kind: self.kind@,
            path: self.path@,
            source: text_opt(self.source),
            status: text_opt(self.status),
            summary: text_opt(self.summary),
        }
    }
}

impl Clone for UiNodeHeader {
    fn clone(&self) -> (r: Self)
        ensures
            r == *self,
    {
        UiNodeHeader {
            name: self.name.clone(),
            kind: self.kind.clone(),
            path: self.path.clone(),
            source: clone_text_opt(&self.source),
            status: clone_text_opt(&self.status),
            summary: clone_text_opt(&self.summary),
        }
    }
}

/// A card with the column of cards it heads.
#[derive(Debug, PartialEq, Eq)]
pub struct UiNodeView {
    pub header: UiNodeHeader,
    pub node_id: Option<String>,
    pub face: Option<UiNodeFace>,
    pub children: Vec<UiNodeChild>,
}

/// What a [`UiNodeView`] says.
#[verifier::ext_equal]
pub struct NodeModel {
    pub header: HeaderModel,
    pub node_id: Option<Seq<char>>,
    pub face: Option<NodeFaceModel>,
    pub children: Seq<ChildModel>,
}

impl View for UiNodeView {
    type V = NodeModel;

    open spec fn view(&self) -> NodeModel {
        NodeModel {
            header: self.header@,
            node_id: text_opt(self.node_id),
            face: face_opt(self.face),
            children: child_models(self.children@),
        }
    }
}

impl Clone for UiNodeView {
    fn clone(&self) -> (r: Self)
        ensures
            r@ == self@,
    {
        let mut children: Vec<UiNodeChild> = Vec::new();
        let mut at: usize = 0;
        while at < self.children.len()
            invariant
                at <= self.children.len(),
                children.len() == at,
                forall|i: int| 0 <= i < at ==> (#[trigger] children@[i])@ == self.children@[i]@,
            decreases self.children.len() - at,
        {
            children.push(self.children[at].clone());
            at += 1;
        }
        let r = UiNodeView {
            header: self.header.clone(),
            node_id: clone_text_opt(&self.node_id),
            face: clone_face_opt(&self.face),
            children,
        };
        assert(r@.children =~= self@.children);
        r
    }
}

impl UiNodeView {
    /// The card with these cards below it.
    pub fn with_children(self, children: Vec<UiNodeChild>) -> (r: Self)
        ensures
            r@ == (NodeModel { children: child_models(children@), ..self@ }),
    {
        UiNodeView { children, ..self }
    }
}

} // verus!
