//! The generic view-binding dispatch mechanism.
//!
//! A resource composes one view model (its private mutable state) and one
//! view (a fixed table of widgets).  Each widget owns typed bindings
//! (`ASType`) that connect its attributes and actions to numbered
//! projections of the view model: a read projection renders one value, a
//! write projection mutates the state from an action's payload.  The
//! projection numbers are the verified counterpart of the boxed closures
//! such a binding would otherwise hold: a binding stores the number, and
//! the view model routes it.
//!
//! Rendering never fails: a read projection's error degrades to an error
//! string for that one attribute.  Dispatch errors, by contrast, are
//! returned to the action's caller; an action type no widget binding
//! handles is ignored and reported as success.

use crate::ids::fresh_id;
use crate::params::ParamMap;
use crate::params::WidgetsData;
use crate::strings::dec_digits;
use crate::strings::u32_to_string;
use vstd::prelude::*;
use vstd::string::StringExecFns;

verus! {

/// A widget-level action failure, at specification level.
pub enum ActionFailure {
    /// The addressed widget is not part of the view.
    WidgetNotFound,
    /// A write binding reported a domain-level failure.
    Binding(Seq<char>),
}

/// A widget-level action failure.
#[derive(Debug)]
pub enum ActionError {
    /// The addressed widget is not part of the view.
    WidgetNotFound,
    /// A write binding reported a domain-level failure.
    BindingError(String),
}

impl View for ActionError {
    type V = ActionFailure;

    open spec fn view(&self) -> ActionFailure {
        match self {
            ActionError::WidgetNotFound => ActionFailure::WidgetNotFound,
            ActionError::BindingError(m) => ActionFailure::Binding(m@),
        }
    }
}

/// The private mutable state of one resource.
///
/// The view model exposes its data through numbered projections; the
/// specification functions say exactly what each projection reads or
/// writes, and the executable methods are bound to them.
pub trait ASViewModel: Sized {
    /// What the read projection `proj` yields on this state.
    spec fn read_model(&self, proj: u32) -> Result<Seq<char>, Seq<char>>;

    /// The state after the write projection `proj` with payload `data`.
    spec fn write_model(&self, proj: u32, data: Map<Seq<char>, Seq<char>>) -> Self;

    /// Whether the write projection succeeds, or its failure message.
    spec fn write_outcome(&self, proj: u32, data: Map<Seq<char>, Seq<char>>) -> Result<
        (),
        Seq<char>,
    >;

    /// Evaluates a read projection.
    fn read_value(&self, proj: u32) -> (r: Result<String, String>)
        ensures
            r is Ok <==> self.read_model(proj) is Ok,
            r is Ok ==> r->Ok_0@ == self.read_model(proj)->Ok_0,
            r is Err ==> r->Err_0@ == self.read_model(proj)->Err_0,
    ;

    /// Applies a write projection.
    fn write_value(&mut self, proj: u32, data: &ParamMap) -> (r: Result<(), String>)
        ensures
            *final(self) == old(self).write_model(proj, data@),
            r is Ok <==> old(self).write_outcome(proj, data@) is Ok,
            r is Err ==> r->Err_0@ == old(self).write_outcome(proj, data@)->Err_0,
    ;
}

/// A view: the fixed widget collection of one resource, assembled once
/// at resource creation.
pub trait ASView {

}

/// One typed binding between a widget attribute or action and the view
/// model.
pub enum ASType {
    /// No binding: renders as the empty string and never matches a write.
    Default,
    /// A fixed value, ignoring the view model.
    Static(String),
    /// A read projection: view model to rendered value.
    ViewModel2View(u32),
    /// A write projection: action payload to view-model mutation.
    View2ViewModel(u32),
}

/// A named element of a view: it renders itself into a flat attribute
/// map from the view model, and dispatches inbound actions to its write
/// binding.
pub trait ASWidget<TViewModel: ASViewModel>: Sized {
    /// The widget's identifier.
    spec fn widget_id_model(&self) -> Seq<char>;

    /// The full attribute map the widget renders on `vm`.
    spec fn params_model(&self, vm: &TViewModel) -> Map<Seq<char>, Seq<char>>;

    /// The view-model state after dispatching one action to this widget.
    spec fn act_model(
        &self,
        action_type: Seq<char>,
        data: Map<Seq<char>, Seq<char>>,
        vm: TViewModel,
    ) -> TViewModel;

    /// Whether the dispatch succeeds, or the write binding's failure
    /// message.  An action type the widget does not handle is a
    /// successful no-op.
    spec fn act_outcome(
        &self,
        action_type: Seq<char>,
        data: Map<Seq<char>, Seq<char>>,
        vm: TViewModel,
    ) -> Result<(), Seq<char>>;

    /// The widget's identifier, stable for its lifetime.
    fn get_widget_id(&self) -> (r: String)
        ensures
            r@ == self.widget_id_model(),
    ;

    /// Renders every attribute the widget exposes.  Never fails: a read
    /// binding's error degrades to an error string for that attribute.
    fn get_widget_parameters(&self, vm: &TViewModel) -> (r: ParamMap)
        ensures
            r@ == self.params_model(vm),
    ;

    /// Dispatches an inbound action to the write binding registered
    /// under `action_type`.
    fn perform_action(&self, action_type: String, data: &ParamMap, vm: &mut TViewModel) -> (r:
        Result<(), String>)
        ensures
            *final(vm) == self.act_model(action_type@, data@, *old(vm)),
            r is Ok <==> self.act_outcome(action_type@, data@, *old(vm)) is Ok,
            r is Err ==> r->Err_0@ == self.act_outcome(action_type@, data@, *old(vm))->Err_0,
    ;
}

/// A clickable button with a fixed size and label.
pub struct Button {
    pub widget_id: String,
    pub width: u32,
    pub height: u32,
    pub label: String,
    pub click: ASType,
}

impl Button {
    /// A fresh button: 50 by 50, labelled "Button", no click binding,
    /// and a random widget id.
    pub fn new() -> (r: Self)
        ensures
            r.widget_id@.len() == 36,
            r.width == 50,
            r.height == 50,
            r.label@ == "Button"@,
            r.click is Default,
    {
        Button {
            widget_id: fresh_id(),
            width: 50,
            height: 50,
            label: String::from_str("Button"),
            click: ASType::Default,
        }
    }

    /// Binds the button's click action to the write projection `click_fn`.
    pub fn click(self, click_fn: u32) -> (r: Self)
        ensures
            r == (Button { click: ASType::View2ViewModel(click_fn), ..self }),
    {
        Button { click: ASType::View2ViewModel(click_fn), ..self }
    }

    /// Replaces the widget id.
    pub fn with_widget_id(self, id: String) -> (r: Self)
        ensures
            r == (Button { widget_id: id, ..self }),
    {
        Button { widget_id: id, ..self }
    }
}

impl<TViewModel: ASViewModel> ASWidget<TViewModel> for Button {
    open spec fn widget_id_model(&self) -> Seq<char> {
        self.widget_id@
    }

    open spec fn params_model(&self, vm: &TViewModel) -> Map<Seq<char>, Seq<char>> {
        Map::empty().insert("width"@, dec_digits(self.width as nat)).insert(
            "height"@,
            dec_digits(self.height as nat),
        ).insert("label"@, self.label@)
    }

    open spec fn act_model(
        &self,
        action_type: Seq<char>,
        data: Map<Seq<char>, Seq<char>>,
        vm: TViewModel,
    ) -> TViewModel {
        if action_type == "click"@ {
            match self.click {
                ASType::View2ViewModel(p) => vm.write_model(p, data),
                _ => vm,
            }
        } else {
            vm
        }
    }

    open spec fn act_outcome(
        &self,
        action_type: Seq<char>,
        data: Map<Seq<char>, Seq<char>>,
        vm: TViewModel,
    ) -> Result<(), Seq<char>> {
        if action_type == "click"@ {
            match self.click {
                ASType::View2ViewModel(p) => vm.write_outcome(p, data),
                _ => Ok(()),
            }
        } else {
            Ok(())
        }
    }

    fn get_widget_id(&self) -> (r: String) {
        self.widget_id.clone()
    }

    fn get_widget_parameters(&self, vm: &TViewModel) -> (r: ParamMap) {
        let mut pm = ParamMap::new();
        pm.insert(String::from_str("width"), u32_to_string(self.width));
        pm.insert(String::from_str("height"), u32_to_string(self.height));
        pm.insert(String::from_str("label"), self.label.clone());
        pm
    }

    fn perform_action(&self, action_type: String, data: &ParamMap, vm: &mut TViewModel) -> (r:
        Result<(), String>) {
        let click_label = String::from_str("click");
        if action_type == click_label {
            match &self.click {
                ASType::View2ViewModel(p) => vm.write_value(*p, data),
                _ => Ok(()),
            }
        } else {
            Ok(())
        }
    }
}

/// A text box rendering one bound value.
pub struct TextBox {
    pub widget_id: String,
    pub content: ASType,
}

impl TextBox {
    /// A fresh text box with no content binding and a random widget id.
    pub fn new() -> (r: Self)
        ensures
            r.widget_id@.len() == 36,
            r.content is Default,
    {
        TextBox { widget_id: fresh_id(), content: ASType::Default }
    }

    /// Replaces the content binding.
    pub fn content(self, user_content: ASType) -> (r: Self)
        ensures
            r == (TextBox { content: user_content, ..self }),
    {
        TextBox { content: user_content, ..self }
    }

    /// Replaces the widget id.
    pub fn with_widget_id(self, id: String) -> (r: Self)
        ensures
            r == (TextBox { widget_id: id, ..self }),
    {
        TextBox { widget_id: id, ..self }
    }
}

impl<TViewModel: ASViewModel> ASWidget<TViewModel> for TextBox {
    open spec fn widget_id_model(&self) -> Seq<char> {
        self.widget_id@
    }

    open spec fn params_model(&self, vm: &TViewModel) -> Map<Seq<char>, Seq<char>> {
        Map::empty().insert(
            "text"@,
            match self.content {
                ASType::Default => Seq::<char>::empty(),
                ASType::Static(s) => s@,
                ASType::ViewModel2View(p) => match vm.read_model(p) {
                    Ok(v) => v,
                    Err(e) => "Error : "@ + e,
                },
                ASType::View2ViewModel(_) => "unknown"@,
            },
        )
    }

    open spec fn act_model(
        &self,
        action_type: Seq<char>,
        data: Map<Seq<char>, Seq<char>>,
        vm: TViewModel,
    ) -> TViewModel {
        vm
    }

    open spec fn act_outcome(
        &self,
        action_type: Seq<char>,
        data: Map<Seq<char>, Seq<char>>,
        vm: TViewModel,
    ) -> Result<(), Seq<char>> {
        Ok(())
    }

    fn get_widget_id(&self) -> (r: String) {
        self.widget_id.clone()
    }

    fn get_widget_parameters(&self, vm: &TViewModel) -> (r: ParamMap) {
        let mut pm = ParamMap::new();
        let text_key = String::from_str("text");
        match &self.content {
            ASType::Default => {
                pm.insert(text_key, String::new());
            },
            ASType::Static(s) => {
                pm.insert(text_key, s.clone());
            },
            ASType::ViewModel2View(p) => {
                match vm.read_value(*p) {
                    Ok(v) => {
                        pm.insert(text_key, v);
                    },
                    Err(e) => {
                        let mut msg = String::from_str("Error : ");
                        msg.append(e.as_str());
                        pm.insert(text_key, msg);
                    },
                }
            },
            ASType::View2ViewModel(_) => {
                pm.insert(text_key, String::from_str("unknown"));
            },
        }
        pm
    }

    fn perform_action(&self, action_type: String, data: &ParamMap, vm: &mut TViewModel) -> (r:
        Result<(), String>) {
        Ok(())
    }
}

/// The closed set of widget families a view can hold.
pub enum WidgetKind {
    Button(Button),
    TextBox(TextBox),
}

impl WidgetKind {
    /// The widget's identifier, independent of any view model.
    pub open spec fn id_model(&self) -> Seq<char> {
        match self {
            WidgetKind::Button(b) => b.widget_id@,
            WidgetKind::TextBox(t) => t.widget_id@,
        }
    }

    /// The widget's identifier.
    pub fn get_id(&self) -> (r: String)
        ensures
            r@ == self.id_model(),
    {
        match self {
            WidgetKind::Button(b) => b.widget_id.clone(),
            WidgetKind::TextBox(t) => t.widget_id.clone(),
        }
    }
}

impl<TViewModel: ASViewModel> ASWidget<TViewModel> for WidgetKind {
    open spec fn widget_id_model(&self) -> Seq<char> {
        self.id_model()
    }

    open spec fn params_model(&self, vm: &TViewModel) -> Map<Seq<char>, Seq<char>> {
        match self {
            WidgetKind::Button(b) => <Button as ASWidget<TViewModel>>::params_model(b, vm),
            WidgetKind::TextBox(t) => <TextBox as ASWidget<TViewModel>>::params_model(t, vm),
        }
    }

    open spec fn act_model(
        &self,
        action_type: Seq<char>,
        data: Map<Seq<char>, Seq<char>>,
        vm: TViewModel,
    ) -> TViewModel {
        match self {
            WidgetKind::Button(b) => <Button as ASWidget<TViewModel>>::act_model(
                b,
                action_type,
                data,
                vm,
            ),
            WidgetKind::TextBox(t) => <TextBox as ASWidget<TViewModel>>::act_model(
                t,
                action_type,
                data,
                vm,
            ),
        }
    }

    open spec fn act_outcome(
        &self,
        action_type: Seq<char>,
        data: Map<Seq<char>, Seq<char>>,
        vm: TViewModel,
    ) -> Result<(), Seq<char>> {
        match self {
            WidgetKind::Button(b) => <Button as ASWidget<TViewModel>>::act_outcome(
                b,
                action_type,
                data,
                vm,
            ),
            WidgetKind::TextBox(t) => <TextBox as ASWidget<TViewModel>>::act_outcome(
                t,
                action_type,
                data,
                vm,
            ),
        }
    }

    fn get_widget_id(&self) -> (r: String) {
        self.get_id()
    }

    fn get_widget_parameters(&self, vm: &TViewModel) -> (r: ParamMap) {
        match self {
            WidgetKind::Button(b) => b.get_widget_parameters(vm),
            WidgetKind::TextBox(t) => t.get_widget_parameters(vm),
        }
    }

    fn perform_action(&self, action_type: String, data: &ParamMap, vm: &mut TViewModel) -> (r:
        Result<(), String>) {
        match self {
            WidgetKind::Button(b) => b.perform_action(action_type, data, vm),
            WidgetKind::TextBox(t) => t.perform_action(action_type, data, vm),
        }
    }
}

impl WidgetKind {
    /// Whether the widget has a write binding registered under
    /// `action_type`.
    pub open spec fn handles_action(&self, action_type: Seq<char>) -> bool {
        match self {
            WidgetKind::Button(b) => action_type == "click"@ && b.click is View2ViewModel,
            WidgetKind::TextBox(_) => false,
        }
    }
}

/// Law: an action type under which the addressed widget has no write
/// binding registered is ignored — the dispatch succeeds and the view
/// model is unchanged.  This is a named policy, not an accident:
/// unknown actions are tolerated, never rejected.
pub proof fn lemma_unhandled_action_is_noop<TViewModel: ASViewModel>(
    w: WidgetKind,
    action_type: Seq<char>,
    data: Map<Seq<char>, Seq<char>>,
    vm: TViewModel,
)
    requires
        !w.handles_action(action_type),
    ensures
        <WidgetKind as ASWidget<TViewModel>>::act_model(&w, action_type, data, vm) == vm,
        <WidgetKind as ASWidget<TViewModel>>::act_outcome(&w, action_type, data, vm) is Ok,
{
}

/// The render of a keyed widget sequence on one view-model state: each
/// entry's key mapped to its widget's rendered attributes, a later
/// duplicate key overwriting an earlier one.
pub open spec fn widgets_render<TViewModel: ASViewModel>(
    s: Seq<(String, WidgetKind)>,
    vm: &TViewModel,
) -> Map<Seq<char>, Map<Seq<char>, Seq<char>>>
    decreases s.len(),
{
    if s.len() == 0 {
        Map::empty()
    } else {
        widgets_render(s.drop_last(), vm).insert(
            s.last().0@,
            <WidgetKind as ASWidget<TViewModel>>::params_model(&s.last().1, vm),
        )
    }
}

/// The render of a keyed widget sequence, spelled over the map the
/// sequence describes: when the keys are distinct, the fold has exactly
/// the map's domain, and each key renders its widget's attributes.
pub proof fn lemma_widgets_render_as_map<TViewModel: ASViewModel>(
    s: Seq<(String, WidgetKind)>,
    vm: &TViewModel,
    m: Map<Seq<char>, WidgetKind>,
)
    requires
        crate::table::distinct_keys(s),
        m == crate::table::pairs_map(s),
    ensures
        widgets_render(s, vm).dom() == m.dom(),
        forall|k: Seq<char>|
            m.contains_key(k) ==> #[trigger] widgets_render(s, vm)[k] == <WidgetKind as ASWidget<
                TViewModel,
            >>::params_model(&m[k], vm),
    decreases s.len(),
{
    if s.len() == 0 {
        assert(widgets_render(s, vm).dom() =~= m.dom());
    } else {
        let s0 = s.drop_last();
        let m0 = crate::table::pairs_map(s0);
        assert(crate::table::distinct_keys(s0));
        lemma_widgets_render_as_map(s0, vm, m0);
        assert(widgets_render(s, vm).dom() =~= m.dom());
        assert forall|k: Seq<char>| m.contains_key(k) implies #[trigger] widgets_render(s, vm)[k]
            == <WidgetKind as ASWidget<TViewModel>>::params_model(&m[k], vm) by {
            if k != s.last().0@ {
                assert(m0.contains_key(k));
                assert(widgets_render(s, vm)[k] == widgets_render(s0, vm)[k]);
                assert(m[k] == m0[k]);
            }
        }
    }
}

/// A resource: one view model and one view behind a uniform capability
/// interface.  This is the unit the registry manages; the registry's
/// swap protocol guarantees that at most one operation at a time runs
/// these methods on a given resource.
pub trait ResourceManager: Sized {
    /// The resource's identifier.
    spec fn viewmodel_id_model(&self) -> Seq<char>;

    /// The full render of the view on the current state.
    spec fn render_model(&self) -> Map<Seq<char>, Map<Seq<char>, Seq<char>>>;

    /// The resource after one `(widget id, action type, payload)` action.
    spec fn step_model(
        &self,
        widget_id: Seq<char>,
        action_type: Seq<char>,
        data: Map<Seq<char>, Seq<char>>,
    ) -> Self;

    /// Whether one action succeeds, or how it fails.
    spec fn step_outcome(
        &self,
        widget_id: Seq<char>,
        action_type: Seq<char>,
        data: Map<Seq<char>, Seq<char>>,
    ) -> Result<(), ActionFailure>;

    /// The resource's identifier, stable for its lifetime.
    fn get_viewmodel_id(&self) -> (r: String)
        ensures
            r@ == self.viewmodel_id_model(),
    ;

    /// Renders the whole view.  Pure: the result is a function of the
    /// resource's current state alone.
    fn get_widgets_data(&self) -> (r: WidgetsData)
        ensures
            r@ == self.render_model(),
    ;

    /// Routes one action to the addressed widget.
    fn perform_action(&mut self, widget_id: String, action_type: String, data: &ParamMap) -> (r:
        Result<(), ActionError>)
        ensures
            *final(self) == old(self).step_model(widget_id@, action_type@, data@),
            r is Ok <==> old(self).step_outcome(widget_id@, action_type@, data@) is Ok,
            r is Err ==> r->Err_0@ == old(self).step_outcome(widget_id@, action_type@, data@)->Err_0,
    ;
}

} // verus!
