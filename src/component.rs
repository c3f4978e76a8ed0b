//! Status-bar components: named render units that produce colored text
//! segments per display and may react to clicks on a segment.
use vstd::prelude::*;
use crate::geometry::Display;

verus! {

/// One segment of a component's output.
#[derive(Debug)]
pub enum ComponentText {
    /// Text in the bar's colors.
    Basic(String),
    /// Text with optional foreground and background colors: (fg, bg, text).
    Colored(Option<u32>, Option<u32>, String),
}

/// What a segment shows: its explicit colors and its characters.
pub struct Segment {
    pub fg: Option<u32>,
    pub bg: Option<u32>,
    pub text: Seq<char>,
}

/// What a sequence of segments shows.
pub open spec fn shown(v: Seq<ComponentText>) -> Seq<Segment> {
    v.map_values(|t: ComponentText| t.segment())
}

impl ComponentText {
    pub open spec fn segment(&self) -> Segment {
        match self {
            ComponentText::Basic(t) => Segment { fg: None, bg: None, text: t@ },
            ComponentText::Colored(fg, bg, t) => Segment { fg: *fg, bg: *bg, text: t@ },
        }
    }

    pub open spec fn text(&self) -> Seq<char> {
        match self {
            ComponentText::Basic(t) => t@,
            ComponentText::Colored(_, _, t) => t@,
        }
    }

    pub fn get_text(&self) -> (r: String)
        ensures
            r@ == self.text(),
    {
        match self {
            ComponentText::Basic(text) => text.clone(),
            ComponentText::Colored(_, _, text) => text.clone(),
        }
    }

    /// The explicit foreground color; none inherits the bar's.
    pub fn get_fg(&self) -> (r: Option<u32>)
        ensures
            r == match self {
                ComponentText::Basic(_) => None,
                ComponentText::Colored(fg, _, _) => *fg,
            },
    {
        match self {
            ComponentText::Basic(_) => None,
            ComponentText::Colored(fg, _, _) => *fg,
        }
    }

    /// The explicit background color; none inherits the bar's.
    pub fn get_bg(&self) -> (r: Option<u32>)
        ensures
            r == match self {
                ComponentText::Basic(_) => None,
                ComponentText::Colored(_, bg, _) => *bg,
            },
    {
        match self {
            ComponentText::Basic(_) => None,
            ComponentText::Colored(_, bg, _) => *bg,
        }
    }
}

/// What a component shows. Rendering observes and never changes anything:
/// its output is a function of the renderer and the display.
pub trait RenderFn {
    spec fn rendered(&self, display: Display) -> Seq<Segment>;

    fn render(&self, display: &Display) -> (r: Vec<ComponentText>)
        ensures
            shown(r@) == self.rendered(*display),
    ;
}

/// What a click on segment `idx` of a component does; the place for side effects.
pub trait OnClickFn {
    fn on_click(&self, display: &Display, idx: usize);
}

/// The renderer of the default component: a single plain greeting.
pub struct HelloWorld;

impl RenderFn for HelloWorld {
    open spec fn rendered(&self, display: Display) -> Seq<Segment> {
        seq![Segment { fg: None, bg: None, text: "Hello World"@ }]
    }

    fn render(&self, display: &Display) -> (r: Vec<ComponentText>) {
        let mut segments: Vec<ComponentText> = Vec::new();
        segments.push(ComponentText::Basic("Hello World".to_owned()));
        proof {
            assert(shown(segments@) =~= self.rendered(*display));
        }
        segments
    }
}

/// A click handler that does nothing.
pub struct NoClick;

impl OnClickFn for NoClick {
    fn on_click(&self, display: &Display, idx: usize) {
    }
}

pub struct Component<R, C> {
    pub name: String,
    /// Whether a click handler is bound.
    pub is_clickable: bool,
    pub render_fn: R,
    pub on_click_fn: Option<C>,
}

impl<R: RenderFn, C: OnClickFn> Component<R, C> {
    /// A component without a click handler.
    pub fn new(name: &str, render_fn: R) -> (r: Component<R, C>)
        ensures
            r.name@ == name@,
            !r.is_clickable,
            r.render_fn == render_fn,
            r.on_click_fn is None,
    {
        Component { name: name.to_owned(), is_clickable: false, render_fn, on_click_fn: None }
    }

    /// Runs the click handler, if one is bound, for segment `idx`.
    pub fn on_click(&self, display: &Display, idx: usize) {
        if let Some(f) = &self.on_click_fn {
            f.on_click(display, idx);
        }
    }

    /// The segments this component shows on `display`.
    pub fn render(&self, display: &Display) -> (r: Vec<ComponentText>)
        ensures
            shown(r@) == self.render_fn.rendered(*display),
    {
        self.render_fn.render(display)
    }

    /// Binds a click handler, which makes the component clickable.
    pub fn with_on_click(&mut self, f: C)
        ensures
            final(self).is_clickable,
            final(self).on_click_fn == Some(f),
            final(self).name == old(self).name,
            final(self).render_fn == old(self).render_fn,
    {
        self.is_clickable = true;
        self.on_click_fn = Some(f);
    }
}

impl Default for Component<HelloWorld, NoClick> {
    /// A component named `Default` that greets and takes no clicks.
    fn default() -> (r: Component<HelloWorld, NoClick>)
        ensures
            r.name@ == "Default"@,
            !r.is_clickable,
            r.on_click_fn is None,
    {
        Component {
            name: "Default".to_owned(),
            is_clickable: false,
            render_fn: HelloWorld,
            on_click_fn: None,
        }
    }
}

} // verus!
