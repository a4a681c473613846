//! The start screen: which buttons it shows, where, and what hovering over
//! them does. Everything here is a plain value; drawing is left to the
//! engine.

use vstd::prelude::*;

verus! {

/// The cameras of the user interface, one for each part of the screen.
#[derive(Clone, Copy, Debug, PartialEq, Eq, Structural)]
pub enum UiCameras {
    TopLeft,
    TopMiddle,
    TopRight,
    MiddleLeft,
    Center,
    MiddleRight,
    BottomLeft,
    BottomMiddle,
    BottomRight,
}

/// The pages of the start screen.
#[derive(Clone, Copy, Debug, PartialEq, Eq, Structural)]
pub enum StartScreenStates {
    Initial,
    ConfigureHost,
    ConfigureClient,
}

/// The buttons of the first page.
#[derive(Clone, Copy, Debug, PartialEq, Eq, Structural)]
pub enum InitialUiButtons {
    InitialHostGame,
    InitialJoinGame,
}

impl InitialUiButtons {
    /// The text of the button, in contracts.
    pub open spec fn text(self) -> Seq<char> {
        match self {
            InitialUiButtons::InitialHostGame => "Host Game"@,
            InitialUiButtons::InitialJoinGame => "Join Game"@,
        }
    }

    /// The text of the button.
    pub fn get_text(self) -> (text: &'static str)
        ensures
            text@ == self.text(),
    {
        match self {
            InitialUiButtons::InitialHostGame => "Host Game",
            InitialUiButtons::InitialJoinGame => "Join Game",
        }
    }
}

/// The buttons of the page on which a host is set up.
#[derive(Clone, Copy, Debug, PartialEq, Eq, Structural)]
pub enum HostGameButtons {
    HostPublicGame,
    HostMachineLocalGame,
}

impl HostGameButtons {
    /// The text of the button, in contracts.
    pub open spec fn text(self) -> Seq<char> {
        match self {
            HostGameButtons::HostPublicGame => "Host Public Game"@,
            HostGameButtons::HostMachineLocalGame => "Host Machine-Local Game"@,
        }
    }

    /// The text of the button.
    pub fn get_text(self) -> (text: &'static str)
        ensures
            text@ == self.text(),
    {
        match self {
            HostGameButtons::HostPublicGame => "Host Public Game",
            HostGameButtons::HostMachineLocalGame => "Host Machine-Local Game",
        }
    }
}

/// Half the width and half the height of a rectangle round its centre.
#[derive(Clone, Copy, Debug, PartialEq, Eq, Structural)]
pub struct BBox {
    pub half_width: i32,
    pub half_height: i32,
}

/// A place on the screen: a centre and the rectangle round it.
#[derive(Clone, Copy, Debug, PartialEq, Eq, Structural)]
pub struct ManualNode {
    pub x: i32,
    pub y: i32,
    pub bbox: BBox,
}

/// The greatest size and coordinate that a column lays out.
pub const MAX_LAYOUT: i32 = 100_000;

/// A column of equal items laid out from the top down.
#[derive(Clone, Copy, Debug, PartialEq, Eq, Structural)]
pub struct ManualColumn {
    pub const_x: i32,
    pub const_width: i32,
    pub current_y: i32,
    pub item_height: i32,
    pub margin: i32,
}

impl ManualColumn {
    /// The sizes are not negative, and every number is small enough for the
    /// column to lay out [`MAX_LAYOUT`] items.
    pub open spec fn wf(self) -> bool {
        &&& -MAX_LAYOUT <= self.const_x <= MAX_LAYOUT
        &&& 0 <= self.const_width <= MAX_LAYOUT
        &&& 0 <= self.item_height <= MAX_LAYOUT
        &&& 0 <= self.margin <= MAX_LAYOUT
    }

    /// The distance between the centres of two neighbours.
    pub open spec fn pitch(self) -> int {
        self.item_height + self.margin
    }

    /// The column moved up so that `count` items are centred on where it
    /// stood; a column of no items stays where it is.
    pub open spec fn centered(self, count: int) -> ManualColumn {
        if count <= 0 {
            self
        } else {
            ManualColumn {
                current_y: (self.current_y + ((count - 1) * self.pitch()) / 2) as i32,
                ..self
            }
        }
    }

    /// The place of the next item.
    pub open spec fn node(self) -> ManualNode {
        ManualNode {
            x: self.const_x,
            y: self.current_y,
            bbox: BBox {
                half_width: (self.const_width / 2) as i32,
                half_height: (self.item_height / 2) as i32,
            },
        }
    }

    /// The column after an item has been placed.
    pub open spec fn advanced(self) -> ManualColumn {
        ManualColumn { current_y: (self.current_y - self.pitch()) as i32, ..self }
    }

    /// Moves the column up by half of what `count` items take, so that they
    /// are centred on the place where the column stood.
    pub fn center_with(self, count: u8) -> (column: ManualColumn)
        requires
            self.wf(),
            -MAX_LAYOUT <= self.current_y <= MAX_LAYOUT,
        ensures
            column == self.centered(count as int),
            column.wf(),
            self.current_y <= column.current_y <= self.current_y + 255 * MAX_LAYOUT,
    {
        if count == 0 {
            return self;
        }
        let pitch: i32 = self.item_height + self.margin;
        let gaps: i32 = count as i32 - 1;
        assert(0 <= gaps * pitch <= 254 * (2 * MAX_LAYOUT)) by (nonlinear_arith)
            requires
                0 <= gaps <= 254,
                0 <= pitch <= 2 * MAX_LAYOUT,
        ;
        let spread: i32 = gaps * pitch;
        ManualColumn {
            const_x: self.const_x,
            const_width: self.const_width,
            current_y: self.current_y + spread / 2,
            item_height: self.item_height,
            margin: self.margin,
        }
    }

    /// Hands out the place of the next item and moves down by one item and
    /// one margin.
    pub fn next(&mut self) -> (node: ManualNode)
        requires
            old(self).wf(),
            i32::MIN + 2 * MAX_LAYOUT <= old(self).current_y,
        ensures
            node == old(self).node(),
            *final(self) == old(self).advanced(),
            final(self).wf(),
    {
        let node = ManualNode {
            x: self.const_x,
            y: self.current_y,
            bbox: BBox { half_width: self.const_width / 2, half_height: self.item_height / 2 },
        };
        self.current_y = self.current_y - (self.item_height + self.margin);
        node
    }
}

/// A colour, each part in thousandths.
#[derive(Clone, Copy, Debug, PartialEq, Eq, Structural)]
pub struct Color {
    pub red: u16,
    pub green: u16,
    pub blue: u16,
    pub alpha: u16,
}

/// White.
pub open spec fn white() -> Color {
    Color { red: 1000, green: 1000, blue: 1000, alpha: 1000 }
}

/// Black.
pub open spec fn black() -> Color {
    Color { red: 0, green: 0, blue: 0, alpha: 1000 }
}

/// The dark blue of the button texts.
pub open spec fn midnight_blue() -> Color {
    Color { red: 100, green: 100, blue: 440, alpha: 1000 }
}

/// The rectangle that the particles of a button run along.
#[derive(Clone, Copy, Debug, PartialEq, Eq, Structural)]
pub struct BevyPath {
    pub bbox: BBox,
}

/// The point of the rectangle `bbox` that lies `distance` along its sides,
/// clockwise from its upper left corner, relative to its centre.
pub open spec fn rectangle_point(bbox: BBox, distance: int) -> (int, int) {
    let w = bbox.half_width as int;
    let h = bbox.half_height as int;
    if distance < 2 * w {
        (-w + distance, h)
    } else if distance < 2 * w + 2 * h {
        (w, h - (distance - 2 * w))
    } else if distance < 4 * w + 2 * h {
        (w - (distance - 2 * w - 2 * h), -h)
    } else {
        (-w, -h + (distance - 4 * w - 2 * h))
    }
}

/// The way round the rectangle `bbox`.
pub open spec fn perimeter(bbox: BBox) -> int {
    4 * bbox.half_width + 4 * bbox.half_height
}

/// `point` lies on a side of the rectangle `bbox`.
pub open spec fn on_rectangle(bbox: BBox, point: (int, int)) -> bool {
    let w = bbox.half_width as int;
    let h = bbox.half_height as int;
    &&& -w <= point.0 <= w
    &&& -h <= point.1 <= h
    &&& point.0 == -w || point.0 == w || point.1 == -h || point.1 == h
}

/// Every point that [`rectangle_point`] gives within one round lies on a
/// side of the rectangle.
pub proof fn lemma_rectangle_point_on_rectangle(bbox: BBox, distance: int)
    requires
        0 <= bbox.half_width,
        0 <= bbox.half_height,
        0 <= distance <= perimeter(bbox),
    ensures
        on_rectangle(bbox, rectangle_point(bbox, distance)),
{
}

impl BevyPath {
    /// The path along the sides of `bbox`.
    pub fn rectangle_from_bbox(bbox: BBox) -> (path: BevyPath)
        ensures
            path.bbox == bbox,
    {
        BevyPath { bbox }
    }

    /// The sides are not negative and not longer than a column lays out.
    pub open spec fn wf(self) -> bool {
        &&& 0 <= self.bbox.half_width <= MAX_LAYOUT
        &&& 0 <= self.bbox.half_height <= MAX_LAYOUT
    }

    /// Where the path is after `phase` of the `cycle` parts of one round.
    pub open spec fn point_at(self, phase: int, cycle: int) -> (int, int) {
        rectangle_point(self.bbox, (perimeter(self.bbox) * phase) / cycle)
    }

    /// The point of the path after `phase` of the `cycle` parts of one
    /// round, clockwise from the upper left corner.
    pub fn get_pos_at_time(&self, phase: u32, cycle: u32) -> (point: (i32, i32))
        requires
            self.wf(),
            phase < cycle,
        ensures
            (point.0 as int, point.1 as int) == self.point_at(phase as int, cycle as int),
            on_rectangle(self.bbox, (point.0 as int, point.1 as int)),
    {
        let w: i64 = self.bbox.half_width as i64;
        let h: i64 = self.bbox.half_height as i64;
        let round: i64 = 4 * w + 4 * h;
        assert(0 <= round * phase <= round * cycle && (round * phase) / (cycle as int) <= round)
            by (nonlinear_arith)
            requires
                0 <= round,
                0 <= phase < cycle,
        ;
        assert(round * cycle <= 800_000 * 0x1_0000_0000) by (nonlinear_arith)
            requires
                0 <= round <= 800_000,
                0 <= cycle <= 0x1_0000_0000,
        ;
        let distance: i64 = (round * (phase as i64)) / (cycle as i64);
        proof {
            lemma_rectangle_point_on_rectangle(self.bbox, distance as int);
        }
        if distance < 2 * w {
            ((-w + distance) as i32, h as i32)
        } else if distance < 2 * w + 2 * h {
            (w as i32, (h - (distance - 2 * w)) as i32)
        } else if distance < 4 * w + 2 * h {
            ((w - (distance - 2 * w - 2 * h)) as i32, (-h) as i32)
        } else {
            ((-w) as i32, (-h + (distance - 4 * w - 2 * h)) as i32)
        }
    }
}

/// What is drawn for a button: a white rectangle at its place, one step in
/// front of the background.
#[derive(Clone, Copy, Debug, PartialEq, Eq)]
pub struct GameButtonBundle<T> {
    pub width: i32,
    pub height: i32,
    pub material: Color,
    pub x: i32,
    pub y: i32,
    pub z: i32,
    pub path: BevyPath,
    pub btn: T,
    pub cam: UiCameras,
    pub name: &'static str,
    pub layer: UiCameras,
}

impl<T> GameButtonBundle<T> {
    /// This is what [`GameButtonBundle::new`] makes of its arguments.
    pub open spec fn is_new(self, cam: UiCameras, btn: T, manual_node: ManualNode) -> bool {
        &&& self.width == 2 * manual_node.bbox.half_width
        &&& self.height == 2 * manual_node.bbox.half_height
        &&& self.material == white()
        &&& self.x == manual_node.x
        &&& self.y == manual_node.y
        &&& self.z == 1
        &&& self.path.bbox == manual_node.bbox
        &&& self.btn == btn
        &&& self.cam == cam
        &&& self.layer == cam
        &&& self.name@ == "Host Game Button"@
    }

    /// The rectangle drawn for the button `btn` at `manual_node`, for `cam`.
    pub fn new(cam: UiCameras, btn: T, manual_node: ManualNode) -> (bundle: GameButtonBundle<T>)
        requires
            0 <= manual_node.bbox.half_width <= MAX_LAYOUT,
            0 <= manual_node.bbox.half_height <= MAX_LAYOUT,
        ensures
            bundle.is_new(cam, btn, manual_node),
    {
        GameButtonBundle {
            cam,
            btn,
            width: manual_node.bbox.half_width * 2,
            height: manual_node.bbox.half_height * 2,
            material: Color { red: 1000, green: 1000, blue: 1000, alpha: 1000 },
            x: manual_node.x,
            y: manual_node.y,
            z: 1,
            name: "Host Game Button",
            path: BevyPath::rectangle_from_bbox(manual_node.bbox),
            layer: cam,
        }
    }
}

/// How a text is set within its bounds.
#[derive(Clone, Copy, Debug, PartialEq, Eq, Structural)]
pub enum TextAlignment {
    Left,
    Center,
    Right,
}

/// The text on a button.
#[derive(Clone, Copy, Debug, PartialEq, Eq)]
pub struct ButtonText {
    pub text: &'static str,
    pub font_size: u32,
    pub color: Color,
    pub alignment: TextAlignment,
    /// How far in front of the button the text stands.
    pub z: i32,
    pub name: &'static str,
    pub render_layer: UiCameras,
}

impl ButtonText {
    /// This is what [`ButtonText::new`] makes of its arguments.
    pub open spec fn is_new(self, cam: UiCameras, text: Seq<char>) -> bool {
        &&& self.text@ == text
        &&& self.font_size == 40
        &&& self.color == midnight_blue()
        &&& self.alignment == TextAlignment::Center
        &&& self.z == 1
        &&& self.name@ == "Button Text"@
        &&& self.render_layer == cam
    }

    /// `text` as it stands on a button: 40 high, dark blue, centred, one
    /// step in front of the button.
    pub fn new(cam: UiCameras, text: &'static str) -> (button_text: ButtonText)
        ensures
            button_text.is_new(cam, text@),
    {
        ButtonText {
            text,
            font_size: 40,
            color: Color { red: 100, green: 100, blue: 440, alpha: 1000 },
            alignment: TextAlignment::Center,
            z: 1,
            name: "Button Text",
            render_layer: cam,
        }
    }
}

/// The marker of the entity that carries a button's particles.
#[derive(Clone, Copy, Debug, PartialEq, Eq, Structural)]
pub struct ButtonParticle;

/// The number of milliseconds in which the particles of a button go once
/// round it.
pub const ROUND_MILLIS: u32 = 250;

impl ButtonParticle {
    /// Where the particles of a button stand, relative to the button,
    /// `elapsed_millis` after the start: they go round its rectangle once
    /// in [`ROUND_MILLIS`].
    pub fn follow_parent_bbox(elapsed_millis: u128, path: &BevyPath) -> (position: (i32, i32))
        requires
            path.wf(),
        ensures
            (position.0 as int, position.1 as int) == path.point_at(
                elapsed_millis as int % (ROUND_MILLIS as int),
                ROUND_MILLIS as int,
            ),
            on_rectangle(path.bbox, (position.0 as int, position.1 as int)),
    {
        let phase: u32 = (elapsed_millis % (ROUND_MILLIS as u128)) as u32;
        path.get_pos_at_time(phase, ROUND_MILLIS)
    }
}

/// The particles that a button gives off while the pointer is over it:
/// times in milliseconds, the rate per second.
#[derive(Clone, Copy, Debug, PartialEq, Eq)]
pub struct ButtonParticles {
    /// The greatest number of particles alive at once.
    pub capacity: u32,
    /// The number of particles that appear in a second.
    pub rate: u32,
    pub starts_active: bool,
    /// A particle starts at an age between nothing and this.
    pub initial_age_max: u32,
    pub lifetime_min: u32,
    pub lifetime_max: u32,
    /// The radius of the ball in which particles appear.
    pub radius: u32,
    /// The speed at which they leave its centre.
    pub speed: u32,
    /// The colour of a particle when it appears.
    pub color_at_birth: Color,
    /// The colour of a particle when it dies.
    pub color_at_death: Color,
    pub marker: ButtonParticle,
    pub layer: UiCameras,
    pub name: &'static str,
}

impl ButtonParticles {
    /// This is what [`ButtonParticles::new`] makes for `cam`.
    pub open spec fn is_new(self, cam: UiCameras) -> bool {
        &&& self.capacity == 32768
        &&& self.rate == 1000
        &&& !self.starts_active
        &&& self.initial_age_max == 300
        &&& self.lifetime_min == 1000
        &&& self.lifetime_max == 1500
        &&& self.radius == 25
        &&& self.speed == 15
        &&& self.color_at_birth == white()
        &&& self.color_at_death == black()
        &&& self.layer == cam
        &&& self.name@ == "Button Particles"@
    }

    /// The particles of a button shown by `cam`: none until the pointer
    /// comes, then a thousand a second, fading from white to black.
    pub fn new(cam: UiCameras) -> (particles: ButtonParticles)
        ensures
            particles.is_new(cam),
    {
        ButtonParticles {
            capacity: 32768,
            rate: 1000,
            starts_active: false,
            initial_age_max: 300,
            lifetime_min: 1000,
            lifetime_max: 1500,
            radius: 25,
            speed: 15,
            color_at_birth: Color { red: 1000, green: 1000, blue: 1000, alpha: 1000 },
            color_at_death: Color { red: 0, green: 0, blue: 0, alpha: 1000 },
            marker: ButtonParticle,
            layer: cam,
            name: "Button Particles",
        }
    }
}

/// A button with what hangs on it: its particles and its text.
#[derive(Clone, Copy, Debug, PartialEq, Eq)]
pub struct ButtonSpawn<T> {
    pub button: GameButtonBundle<T>,
    pub particles: ButtonParticles,
    pub text: ButtonText,
}

impl<T> ButtonSpawn<T> {
    /// The button `btn` with the text `text`, at `node`, all shown by `cam`.
    pub open spec fn is_for(self, cam: UiCameras, btn: T, text: Seq<char>, node: ManualNode)
        -> bool {
        &&& self.button.is_new(cam, btn, node)
        &&& self.particles.is_new(cam)
        &&& self.text.is_new(cam, text)
    }
}

/// The place of item `index` of a column of two, 200 wide and 50 high with
/// 10 between, centred on the height of the screen at `x`.
pub open spec fn column_of_two(x: int, index: int) -> ManualNode {
    ManualNode {
        x: x as i32,
        y: (30 - 60 * index) as i32,
        bbox: BBox { half_width: 100, half_height: 25 },
    }
}

/// The buttons of the first page, from the top down.
pub open spec fn initial_buttons() -> Seq<InitialUiButtons> {
    seq![InitialUiButtons::InitialHostGame, InitialUiButtons::InitialJoinGame]
}

/// The buttons of the page on which a host is set up, from the top down.
pub open spec fn host_buttons() -> Seq<HostGameButtons> {
    seq![HostGameButtons::HostPublicGame, HostGameButtons::HostMachineLocalGame]
}

/// An entity of the engine, by its number.
pub type Entity = u64;

/// The pointer came over an entity, or left it, as seen by a camera.
#[derive(Clone, Copy, Debug, PartialEq, Eq, Structural)]
pub struct PointerEvent {
    pub target: Entity,
    pub camera: Entity,
}

/// A button in the world: the camera it belongs to and what hangs on it.
#[derive(Clone, Debug, PartialEq, Eq)]
pub struct ButtonEntity {
    pub entity: Entity,
    pub cam: UiCameras,
    pub children: Vec<Entity>,
}

/// Which entity is which camera of the user interface.
#[derive(Clone, Debug, PartialEq, Eq)]
pub struct CorrectCamera {
    pub cameras: Vec<(Entity, UiCameras)>,
}

impl CorrectCamera {
    /// The entity `camera` is the camera `cam`.
    pub open spec fn confirms(self, camera: Entity, cam: UiCameras) -> bool {
        exists|i: int|
            0 <= i < self.cameras@.len() && #[trigger] self.cameras@[i] == (camera, cam)
    }

    /// Whether the entity `camera` is the camera `cam`.
    pub fn confirm(&self, camera: &Entity, cam: UiCameras) -> (confirmed: bool)
        ensures
            confirmed == self.confirms(*camera, cam),
    {
        let mut i: usize = 0;
        while i < self.cameras.len()
            invariant
                i <= self.cameras@.len(),
                forall|j: int| 0 <= j < i ==> #[trigger] self.cameras@[j] != (*camera, cam),
            decreases self.cameras@.len() - i,
        {
            let entry = self.cameras[i];
            if entry.0 == *camera && entry.1 == cam {
                return true;
            }
            i += 1;
        }
        false
    }
}

/// What a pointer event leads to.
#[derive(Clone, Copy, Debug, PartialEq, Eq, Structural)]
pub enum HoverOutcome {
    /// The particles of the button are switched on or off.
    SetActive { spawner: Entity, active: bool },
    /// The event came through another camera than the button's: nothing is done.
    Ignored,
    /// Nothing that hangs on the button gives off particles.
    CannotFindSpawner,
    /// The pointer is over something that is no button.
    CannotFindTarget,
}

/// The place, from `lo` on, of the first button that is the entity `target`, or `-1`.
pub open spec fn button_from(buttons: Seq<ButtonEntity>, target: Entity, lo: int) -> int
    decreases buttons.len() - lo,
{
    if lo < 0 || lo >= buttons.len() {
        -1
    } else if buttons[lo].entity == target {
        lo
    } else {
        button_from(buttons, target, lo + 1)
    }
}

/// The place, from `lo` on, of the first of `children` that is among
/// `spawners`, or `-1`.
pub open spec fn spawner_from(children: Seq<Entity>, spawners: Seq<Entity>, lo: int) -> int
    decreases children.len() - lo,
{
    if lo < 0 || lo >= children.len() {
        -1
    } else if spawners.contains(children[lo]) {
        lo
    } else {
        spawner_from(children, spawners, lo + 1)
    }
}

/// What the event `event` leads to: the first of the particle spawners
/// that hang on the button under the pointer is switched to `active`, if
/// the event came through the button's camera.
pub open spec fn hover_outcome(
    buttons: Seq<ButtonEntity>,
    spawners: Seq<Entity>,
    cameras: CorrectCamera,
    event: PointerEvent,
    active: bool,
) -> HoverOutcome {
    let at = button_from(buttons, event.target, 0);
    if at < 0 {
        HoverOutcome::CannotFindTarget
    } else if !cameras.confirms(event.camera, buttons[at].cam) {
        HoverOutcome::Ignored
    } else {
        let child = spawner_from(buttons[at].children@, spawners, 0);
        if child < 0 {
            HoverOutcome::CannotFindSpawner
        } else {
            HoverOutcome::SetActive { spawner: buttons[at].children@[child], active }
        }
    }
}

/// The outcomes of the first `hi` events of `events`, in their order.
pub open spec fn hover_outcomes(
    buttons: Seq<ButtonEntity>,
    spawners: Seq<Entity>,
    cameras: CorrectCamera,
    events: Seq<PointerEvent>,
    active: bool,
    hi: int,
) -> Seq<HoverOutcome>
    decreases hi,
{
    if hi <= 0 {
        Seq::empty()
    } else {
        hover_outcomes(buttons, spawners, cameras, events, active, hi - 1).push(
            hover_outcome(buttons, spawners, cameras, events[hi - 1], active),
        )
    }
}

fn find_button(buttons: &Vec<ButtonEntity>, target: Entity) -> (found: Option<usize>)
    ensures
        match found {
            Some(at) => at < buttons@.len() && at == button_from(buttons@, target, 0),
            None => button_from(buttons@, target, 0) == -1,
        },
{
    let mut at: usize = 0;
    while at < buttons.len()
        invariant
            at <= buttons@.len(),
            button_from(buttons@, target, 0) == button_from(buttons@, target, at as int),
        decreases buttons@.len() - at,
    {
        if buttons[at].entity == target {
            return Some(at);
        }
        at += 1;
    }
    None
}

fn is_spawner(spawners: &Vec<Entity>, entity: Entity) -> (found: bool)
    ensures
        found == spawners@.contains(entity),
{
    let mut i: usize = 0;
    while i < spawners.len()
        invariant
            i <= spawners@.len(),
            forall|j: int| 0 <= j < i ==> #[trigger] spawners@[j] != entity,
        decreases spawners@.len() - i,
    {
        if spawners[i] == entity {
            return true;
        }
        i += 1;
    }
    false
}

fn find_spawner(children: &Vec<Entity>, spawners: &Vec<Entity>) -> (found: Option<usize>)
    ensures
        match found {
            Some(at) => at < children@.len() && at == spawner_from(children@, spawners@, 0),
            None => spawner_from(children@, spawners@, 0) == -1,
        },
{
    let mut at: usize = 0;
    while at < children.len()
        invariant
            at <= children@.len(),
            spawner_from(children@, spawners@, 0) == spawner_from(
                children@,
                spawners@,
                at as int,
            ),
        decreases children@.len() - at,
    {
        if is_spawner(spawners, children[at]) {
            return Some(at);
        }
        at += 1;
    }
    None
}

fn hover_one(
    buttons: &Vec<ButtonEntity>,
    spawners: &Vec<Entity>,
    correct_camera: &CorrectCamera,
    event: PointerEvent,
    active: bool,
) -> (outcome: HoverOutcome)
    ensures
        outcome == hover_outcome(buttons@, spawners@, *correct_camera, event, active),
{
    match find_button(buttons, event.target) {
        None => HoverOutcome::CannotFindTarget,
        Some(at) => {
            if correct_camera.confirm(&event.camera, buttons[at].cam) {
                match find_spawner(&buttons[at].children, spawners) {
                    Some(child) => HoverOutcome::SetActive {
                        spawner: buttons[at].children[child],
                        active,
                    },
                    None => HoverOutcome::CannotFindSpawner,
                }
            } else {
                HoverOutcome::Ignored
            }
        },
    }
}

fn hover_all(
    events: &Vec<PointerEvent>,
    buttons: &Vec<ButtonEntity>,
    spawners: &Vec<Entity>,
    correct_camera: &CorrectCamera,
    active: bool,
    outcomes: &mut Vec<HoverOutcome>,
)
    ensures
        final(outcomes)@ == old(outcomes)@ + hover_outcomes(
            buttons@,
            spawners@,
            *correct_camera,
            events@,
            active,
            events@.len() as int,
        ),
{
    let mut i: usize = 0;
    while i < events.len()
        invariant
            i <= events@.len(),
            outcomes@ == old(outcomes)@ + hover_outcomes(
                buttons@,
                spawners@,
                *correct_camera,
                events@,
                active,
                i as int,
            ),
        decreases events@.len() - i,
    {
        let outcome = hover_one(buttons, spawners, correct_camera, events[i], active);
        outcomes.push(outcome);
        i += 1;
        assert(outcomes@ =~= old(outcomes)@ + hover_outcomes(
            buttons@,
            spawners@,
            *correct_camera,
            events@,
            active,
            i as int,
        ));
    }
}

/// The start screen.
pub struct StartScreen;

impl StartScreen {
    /// The buttons of the first page: "Host Game" above "Join Game", in a
    /// column on the right of the camera in the middle left.
    pub fn spawn_initial() -> (spawns: Vec<ButtonSpawn<InitialUiButtons>>)
        ensures
            spawns@.len() == 2,
            forall|i: int|
                0 <= i < 2 ==> (#[trigger] spawns@[i]).is_for(
                    UiCameras::MiddleLeft,
                    initial_buttons()[i],
                    initial_buttons()[i].text(),
                    column_of_two(200, i),
                ),
    {
        let mut column = (ManualColumn {
            const_x: 200,
            const_width: 200,
            current_y: 0,
            item_height: 50,
            margin: 10,
        }).center_with(2);
        assert(column.current_y == 30) by {
            assert((2 - 1) * (50 + 10) == 60) by (nonlinear_arith);
        }
        let buttons = [InitialUiButtons::InitialHostGame, InitialUiButtons::InitialJoinGame];
        let mut spawns: Vec<ButtonSpawn<InitialUiButtons>> = Vec::new();
        let mut i: usize = 0;
        while i < 2
            invariant
                i <= 2,
                buttons@ == initial_buttons(),
                column.wf(),
                column.const_x == 200,
                column.const_width == 200,
                column.item_height == 50,
                column.margin == 10,
                column.current_y == 30 - 60 * i,
                spawns@.len() == i,
                forall|j: int|
                    0 <= j < i ==> (#[trigger] spawns@[j]).is_for(
                        UiCameras::MiddleLeft,
                        initial_buttons()[j],
                        initial_buttons()[j].text(),
                        column_of_two(200, j),
                    ),
            decreases 2 - i,
        {
            let btn = buttons[i];
            let node = column.next();
            spawns.push(
                ButtonSpawn {
                    button: GameButtonBundle::new(UiCameras::MiddleLeft, btn, node),
                    particles: ButtonParticles::new(UiCameras::MiddleLeft),
                    text: ButtonText::new(UiCameras::MiddleLeft, btn.get_text()),
                },
            );
            i += 1;
        }
        spawns
    }

    /// The buttons of the page on which a host is set up: "Host Public
    /// Game" above "Host Machine-Local Game", in a column on the left of
    /// the camera in the middle right.
    pub fn spawn_configure_host() -> (spawns: Vec<ButtonSpawn<HostGameButtons>>)
        ensures
            spawns@.len() == 2,
            forall|i: int|
                0 <= i < 2 ==> (#[trigger] spawns@[i]).is_for(
                    UiCameras::MiddleRight,
                    host_buttons()[i],
                    host_buttons()[i].text(),
                    column_of_two(-200, i),
                ),
    {
        let mut column = (ManualColumn {
            const_x: -200,
            const_width: 200,
            current_y: 0,
            item_height: 50,
            margin: 10,
        }).center_with(2);
        assert(column.current_y == 30) by {
            assert((2 - 1) * (50 + 10) == 60) by (nonlinear_arith);
        }
        let buttons = [HostGameButtons::HostPublicGame, HostGameButtons::HostMachineLocalGame];
        let mut spawns: Vec<ButtonSpawn<HostGameButtons>> = Vec::new();
        let mut i: usize = 0;
        while i < 2
            invariant
                i <= 2,
                buttons@ == host_buttons(),
                column.wf(),
                column.const_x == -200,
                column.const_width == 200,
                column.item_height == 50,
                column.margin == 10,
                column.current_y == 30 - 60 * i,
                spawns@.len() == i,
                forall|j: int|
                    0 <= j < i ==> (#[trigger] spawns@[j]).is_for(
                        UiCameras::MiddleRight,
                        host_buttons()[j],
                        host_buttons()[j].text(),
                        column_of_two(-200, j),
                    ),
            decreases 2 - i,
        {
            let btn = buttons[i];
            let node = column.next();
            spawns.push(
                ButtonSpawn {
                    button: GameButtonBundle::new(UiCameras::MiddleRight, btn, node),
                    particles: ButtonParticles::new(UiCameras::MiddleRight),
                    text: ButtonText::new(UiCameras::MiddleRight, btn.get_text()),
                },
            );
            i += 1;
        }
        spawns
    }

    /// Decides what the pointer events of a frame do to the particles of
    /// the buttons: an event that starts a hover switches them on, one that
    /// ends a hover switches them off. The outcomes are those of the
    /// starting events, in their order, and then those of the ending events.
    pub fn handle_hover_interactions(
        start_hover_events: &Vec<PointerEvent>,
        end_hover_events: &Vec<PointerEvent>,
        this: &Vec<ButtonEntity>,
        particle_spawners: &Vec<Entity>,
        correct_camera: &CorrectCamera,
    ) -> (outcomes: Vec<HoverOutcome>)
        ensures
            outcomes@ == hover_outcomes(
                this@,
                particle_spawners@,
                *correct_camera,
                start_hover_events@,
                true,
                start_hover_events@.len() as int,
            ) + hover_outcomes(
                this@,
                particle_spawners@,
                *correct_camera,
                end_hover_events@,
                false,
                end_hover_events@.len() as int,
            ),
    {
        let mut outcomes: Vec<HoverOutcome> = Vec::new();
        hover_all(
            start_hover_events,
            this,
            particle_spawners,
            correct_camera,
            true,
            &mut outcomes,
        );
        hover_all(
            end_hover_events,
            this,
            particle_spawners,
            correct_camera,
            false,
            &mut outcomes,
        );
        outcomes
    }

    /// Clicks do nothing yet.
    pub fn handle_click_interactions(click_events: &Vec<PointerEvent>, this: &Vec<ButtonEntity>) {
    }
}

} // verus!
