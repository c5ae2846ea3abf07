//! The example resource: a page with one text box showing a counter
//! and one button that adds one to it.

use crate::ids::fresh_id;
use crate::mvvm_core::ASType;
use crate::mvvm_core::ASView;
use crate::mvvm_core::ASViewModel;
use crate::mvvm_core::ASWidget;
use crate::mvvm_core::ActionError;
use crate::mvvm_core::ActionFailure;
use crate::mvvm_core::Button;
use crate::mvvm_core::ResourceManager;
use crate::mvvm_core::TextBox;
use crate::mvvm_core::WidgetKind;
use crate::mvvm_core::lemma_widgets_render_as_map;
use crate::mvvm_core::widgets_render;
use crate::params::ParamMap;
use crate::params::WidgetsData;
use crate::strings::dec_digits;
use crate::strings::u32_to_string;
use crate::table::KeyTable;
use vstd::prelude::*;
use vstd::string::StringExecFns;

verus! {

/// The read projection rendering the counter.
pub const PROJ_GET_CUSTOM_NUMBER: u32 = 0;

/// The write projection adding one to the counter.
pub const PROJ_ADD_VALUE: u32 = 1;

/// The example page's private state: an identifier and a counter.
pub struct ExampleViewModel {
    pub viewmodel_id: String,
    pub custom_number: u32,
}

impl ExampleViewModel {
    /// A fresh state: a random identifier, counter at zero.
    pub fn new() -> (r: Self)
        ensures
            r.custom_number == 0,
            r.viewmodel_id@.len() == 36,
    {
        ExampleViewModel { viewmodel_id: fresh_id(), custom_number: 0 }
    }

    /// The write projection behind the button's click: adds one to the
    /// counter; fails without mutating once the counter is full.
    pub fn add_value(&mut self, _data: &ParamMap) -> (r: Result<(), String>)
        ensures
            final(self).viewmodel_id == old(self).viewmodel_id,
            old(self).custom_number < u32::MAX ==> r is Ok && final(self).custom_number == old(
                self,
            ).custom_number + 1,
            old(self).custom_number == u32::MAX ==> r is Err && *final(self) == *old(self) && r->Err_0@
                == "counter overflow"@,
    {
        if self.custom_number < u32::MAX {
            self.custom_number = self.custom_number + 1;
            Ok(())
        } else {
            Err(String::from_str("counter overflow"))
        }
    }

    /// The read projection behind the text box: the counter in decimal.
    pub fn get_custom_number(&self) -> (r: Result<String, String>)
        ensures
            r is Ok,
            r->Ok_0@ == dec_digits(self.custom_number as nat),
    {
        Ok(u32_to_string(self.custom_number))
    }
}

impl ASViewModel for ExampleViewModel {
    open spec fn read_model(&self, proj: u32) -> Result<Seq<char>, Seq<char>> {
        if proj == PROJ_GET_CUSTOM_NUMBER {
            Ok(dec_digits(self.custom_number as nat))
        } else {
            Err("unknown projection"@)
        }
    }

    open spec fn write_model(&self, proj: u32, data: Map<Seq<char>, Seq<char>>) -> Self {
        if proj == PROJ_ADD_VALUE && self.custom_number < u32::MAX {
            ExampleViewModel {
                viewmodel_id: self.viewmodel_id,
                custom_number: (self.custom_number + 1) as u32,
            }
        } else {
            *self
        }
    }

    open spec fn write_outcome(&self, proj: u32, data: Map<Seq<char>, Seq<char>>) -> Result<
        (),
        Seq<char>,
    > {
        if proj == PROJ_ADD_VALUE {
            if self.custom_number < u32::MAX {
                Ok(())
            } else {
                Err("counter overflow"@)
            }
        } else {
            Err("unknown projection"@)
        }
    }

    fn read_value(&self, proj: u32) -> (r: Result<String, String>) {
        if proj == PROJ_GET_CUSTOM_NUMBER {
            self.get_custom_number()
        } else {
            Err(String::from_str("unknown projection"))
        }
    }

    fn write_value(&mut self, proj: u32, data: &ParamMap) -> (r: Result<(), String>) {
        if proj == PROJ_ADD_VALUE {
            self.add_value(data)
        } else {
            Err(String::from_str("unknown projection"))
        }
    }
}

/// The widget table described by a widget sequence: each widget keyed
/// by its own id, a later duplicate id overwriting an earlier widget.
pub open spec fn widget_table_model(s: Seq<WidgetKind>) -> Map<Seq<char>, WidgetKind>
    decreases s.len(),
{
    if s.len() == 0 {
        Map::empty()
    } else {
        widget_table_model(s.drop_last()).insert(s.last().id_model(), s.last())
    }
}

/// The example page's view: a fixed table of widgets.
pub struct ExampleView {
    pub widgets: KeyTable<WidgetKind>,
}

impl ASView for ExampleView {

}

impl ExampleView {
    /// Builds the widget table, keyed by each widget's id; callers must
    /// keep ids unique themselves, a duplicate overwrites.
    pub fn new(user_widgets: Vec<WidgetKind>) -> (r: Self)
        ensures
            r.widgets@ == widget_table_model(user_widgets@),
    {
        let ghost all = user_widgets@;
        let mut widgets: KeyTable<WidgetKind> = KeyTable::new();
        let mut rest = user_widgets;
        let ghost mut done: Seq<WidgetKind> = Seq::empty();
        while rest.len() > 0
            invariant
                all == done + rest@,
            widgets@ == widget_table_model(done),
            decreases rest.len(),
        {
            let w = rest.remove(0);
            let id = w.get_id();
            proof {
                assert(done.push(w).drop_last() =~= done);
            }
            widgets.insert(id, w);
            proof {
                done = done.push(w);
                assert(all =~= done + rest@);
            }
        }
        proof {
            assert(done =~= all);
        }
        ExampleView { widgets }
    }

    /// Looks one widget up by id.
    pub fn get_widget(&self, id: &String) -> (r: Option<&WidgetKind>)
        ensures
            match r {
                Some(w) => self.widgets@.contains_key(id@) && *w == self.widgets@[id@],
                None => !self.widgets@.contains_key(id@),
            },
    {
        self.widgets.get(id)
    }
}

/// The example resource: the counter view model behind the example view.
pub struct ExampleResourceManager {
    pub viewmodel: ExampleViewModel,
    pub view: ExampleView,
}

/// The shape of the example page's widget table: a text box (id
/// "TextBox1") whose content reads the counter, and a button (id
/// "AddButton1") whose click adds one to it.  `new` establishes it and
/// every action preserves it, since actions never touch the view.
pub open spec fn example_page(rm: &ExampleResourceManager) -> bool {
    &&& rm.view.widgets@.dom() == set!["TextBox1"@, "AddButton1"@]
    &&& (rm.view.widgets@["TextBox1"@] matches WidgetKind::TextBox(t) && t.widget_id@
        == "TextBox1"@ && t.content == ASType::ViewModel2View(PROJ_GET_CUSTOM_NUMBER))
    &&& (rm.view.widgets@["AddButton1"@] matches WidgetKind::Button(b) && b.widget_id@
        == "AddButton1"@ && b.click == ASType::View2ViewModel(PROJ_ADD_VALUE) && b.width == 50
        && b.height == 50 && b.label@ == "Button"@)
}

impl ExampleResourceManager {
    /// The example page: a text box (id "TextBox1") reading the counter
    /// and a button (id "AddButton1") whose click adds one to it.
    pub fn new() -> (r: Self)
        ensures
            example_page(&r),
            r.viewmodel.custom_number == 0,
            r.viewmodel.viewmodel_id@.len() == 36,
    {
        let text_box = TextBox::new().content(
            ASType::ViewModel2View(PROJ_GET_CUSTOM_NUMBER),
        ).with_widget_id(String::from_str("TextBox1"));
        let add_button = Button::new().click(PROJ_ADD_VALUE).with_widget_id(
            String::from_str("AddButton1"),
        );
        let wk_text = WidgetKind::TextBox(text_box);
        let wk_button = WidgetKind::Button(add_button);
        let ghost g_text = wk_text;
        let ghost g_button = wk_button;
        let mut user_widgets: Vec<WidgetKind> = Vec::new();
        user_widgets.push(wk_text);
        user_widgets.push(wk_button);
        let ghost ws = user_widgets@;
        let view = ExampleView::new(user_widgets);
        let r = ExampleResourceManager { viewmodel: ExampleViewModel::new(), view };
        proof {
            reveal_strlit("TextBox1");
            reveal_strlit("AddButton1");
            assert("TextBox1"@.len() == 8);
            assert("AddButton1"@.len() == 10);
            assert("TextBox1"@ != "AddButton1"@);
            assert(ws.len() == 2 && ws.last() == g_button);
            assert(ws.drop_last() =~= Seq::empty().push(g_text));
            assert(ws.drop_last().drop_last() =~= Seq::<WidgetKind>::empty());
            assert(ws.drop_last().last() == g_text);
            assert(widget_table_model(Seq::<WidgetKind>::empty()) == Map::<
                Seq<char>,
                WidgetKind,
            >::empty());
            assert(widget_table_model(ws.drop_last()) == Map::empty().insert(
                g_text.id_model(),
                g_text,
            ));
            assert(r.view.widgets@ == Map::empty().insert(g_text.id_model(), g_text).insert(
                g_button.id_model(),
                g_button,
            ));
            assert(g_text.id_model() == "TextBox1"@);
            assert(g_button.id_model() == "AddButton1"@);
            assert(r.view.widgets@.dom() =~= set!["TextBox1"@, "AddButton1"@]);
            assert(example_page(&r));
        }
        r
    }
}

/// Law: no lost updates.  One action that reaches a button whose click
/// is bound to the counter's add projection steps the counter by
/// exactly one and succeeds; so a run of successful actions mutates the
/// state exactly once per success.
pub proof fn lemma_click_steps_counter(
    rm: ExampleResourceManager,
    button_id: Seq<char>,
    data: Map<Seq<char>, Seq<char>>,
)
    requires
        rm.view.widgets@.contains_key(button_id),
        rm.view.widgets@[button_id] matches WidgetKind::Button(b) && b.click
            == ASType::View2ViewModel(PROJ_ADD_VALUE),
        rm.viewmodel.custom_number < u32::MAX,
    ensures
        rm.step_outcome(button_id, "click"@, data) is Ok,
        rm.step_model(button_id, "click"@, data).viewmodel.custom_number == rm.viewmodel.custom_number
            + 1,
        rm.step_model(button_id, "click"@, data).viewmodel.viewmodel_id
            == rm.viewmodel.viewmodel_id,
        rm.step_model(button_id, "click"@, data).view == rm.view,
{
}

/// Law: the example scenario, statically.  On the example page the
/// render shows exactly the two widgets, the text box's one attribute
/// `text` holding the counter in decimal and the button its fixed
/// width, height and label; one click action succeeds and the next
/// render shows the counter one higher.
pub proof fn lemma_example_scenario(rm: ExampleResourceManager, data: Map<Seq<char>, Seq<char>>)
    requires
        example_page(&rm),
    ensures
        rm.render_model().dom() == set!["TextBox1"@, "AddButton1"@],
        rm.render_model()["TextBox1"@] == Map::empty().insert(
            "text"@,
            dec_digits(rm.viewmodel.custom_number as nat),
        ),
        rm.render_model()["AddButton1"@] == Map::empty().insert("width"@, dec_digits(50)).insert(
            "height"@,
            dec_digits(50),
        ).insert("label"@, "Button"@),
        rm.viewmodel.custom_number < u32::MAX ==> ({
            let stepped = rm.step_model("AddButton1"@, "click"@, data);
            &&& rm.step_outcome("AddButton1"@, "click"@, data) is Ok
            &&& example_page(&stepped)
            &&& stepped.render_model()["TextBox1"@] == Map::empty().insert(
                "text"@,
                dec_digits((rm.viewmodel.custom_number + 1) as nat),
            )
        }),
{
    assert(rm.render_model().dom() =~= set!["TextBox1"@, "AddButton1"@]);
    if rm.viewmodel.custom_number < u32::MAX {
        let stepped = rm.step_model("AddButton1"@, "click"@, data);
        assert(stepped.render_model().dom() =~= set!["TextBox1"@, "AddButton1"@]);
    }
}

/// The example resource after `n` click actions on its button.
pub open spec fn after_clicks(
    rm: ExampleResourceManager,
    data: Map<Seq<char>, Seq<char>>,
    n: nat,
) -> ExampleResourceManager
    decreases n,
{
    if n == 0 {
        rm
    } else {
        after_clicks(rm, data, (n - 1) as nat).step_model("AddButton1"@, "click"@, data)
    }
}

/// Law: no lost updates, accumulated.  A run of `n` click actions, each
/// reaching the resource in its turn, succeeds every time and leaves
/// the counter exactly `n` higher — one mutation per success, none
/// lost, none applied twice — with the view and the resource id
/// untouched.
pub proof fn lemma_clicks_accumulate(
    rm: ExampleResourceManager,
    data: Map<Seq<char>, Seq<char>>,
    n: nat,
)
    requires
        example_page(&rm),
        rm.viewmodel.custom_number + n <= u32::MAX,
    ensures
        example_page(&after_clicks(rm, data, n)),
        after_clicks(rm, data, n).view == rm.view,
        after_clicks(rm, data, n).viewmodel.viewmodel_id == rm.viewmodel.viewmodel_id,
        after_clicks(rm, data, n).viewmodel.custom_number == rm.viewmodel.custom_number + n,
        forall|i: nat|
            i < n ==> #[trigger] after_clicks(rm, data, i).step_outcome(
                "AddButton1"@,
                "click"@,
                data,
            ) is Ok,
    decreases n,
{
    if n > 0 {
        lemma_clicks_accumulate(rm, data, (n - 1) as nat);
        let prev = after_clicks(rm, data, (n - 1) as nat);
        lemma_click_steps_counter(prev, "AddButton1"@, data);
        assert(prev.step_outcome("AddButton1"@, "click"@, data) is Ok);
        assert(example_page(&after_clicks(rm, data, n)));
    }
}

impl ResourceManager for ExampleResourceManager {
    open spec fn viewmodel_id_model(&self) -> Seq<char> {
        self.viewmodel.viewmodel_id@
    }

    open spec fn render_model(&self) -> Map<Seq<char>, Map<Seq<char>, Seq<char>>> {
        Map::new(
            |k: Seq<char>| self.view.widgets@.contains_key(k),
            |k: Seq<char>|
                <WidgetKind as ASWidget<ExampleViewModel>>::params_model(
                    &self.view.widgets@[k],
                    &self.viewmodel,
                ),
        )
    }

    open spec fn step_model(
        &self,
        widget_id: Seq<char>,
        action_type: Seq<char>,
        data: Map<Seq<char>, Seq<char>>,
    ) -> Self {
        if self.view.widgets@.contains_key(widget_id) {
            ExampleResourceManager {
                viewmodel: <WidgetKind as ASWidget<ExampleViewModel>>::act_model(
                    &self.view.widgets@[widget_id],
                    action_type,
                    data,
                    self.viewmodel,
                ),
                view: self.view,
            }
        } else {
            *self
        }
    }

    open spec fn step_outcome(
        &self,
        widget_id: Seq<char>,
        action_type: Seq<char>,
        data: Map<Seq<char>, Seq<char>>,
    ) -> Result<(), ActionFailure> {
        if self.view.widgets@.contains_key(widget_id) {
            match <WidgetKind as ASWidget<ExampleViewModel>>::act_outcome(
                &self.view.widgets@[widget_id],
                action_type,
                data,
                self.viewmodel,
            ) {
                Ok(u) => Ok(u),
                Err(m) => Err(ActionFailure::Binding(m)),
            }
        } else {
            Err(ActionFailure::WidgetNotFound)
        }
    }

    fn get_viewmodel_id(&self) -> (r: String) {
        self.viewmodel.viewmodel_id.clone()
    }

    fn get_widgets_data(&self) -> (r: WidgetsData) {
        self.view.widgets.entry_facts();
        let mut data = WidgetsData::new();
        let n = self.view.widgets.num_entries();
        let mut i: usize = 0;
        while i < n
            invariant
                n == self.view.widgets.entries().len(),
                i <= n,
                data@ == widgets_render(self.view.widgets.entries().take(i as int), &self.viewmodel),
            decreases n - i,
        {
            let key = self.view.widgets.key_at(i);
            let w = self.view.widgets.value_at(i);
            let pm = w.get_widget_parameters(&self.viewmodel);
            data.insert(key.clone(), pm);
            proof {
                let entries = self.view.widgets.entries();
                assert(entries.take(i + 1).drop_last() =~= entries.take(i as int));
                assert(entries.take(i + 1).last() == entries[i as int]);
            }
            i = i + 1;
        }
        proof {
            assert(self.view.widgets.entries().take(n as int) =~= self.view.widgets.entries());
            lemma_widgets_render_as_map::<ExampleViewModel>(
                self.view.widgets.entries(),
                &self.viewmodel,
                self.view.widgets@,
            );
            assert(data@ =~= self.render_model());
        }
        data
    }

    fn perform_action(&mut self, widget_id: String, action_type: String, data: &ParamMap) -> (r:
        Result<(), ActionError>) {
        match self.view.widgets.get(&widget_id) {
            None => Err(ActionError::WidgetNotFound),
            Some(w) => match w.perform_action(action_type, data, &mut self.viewmodel) {
                Ok(u) => Ok(u),
                Err(m) => Err(ActionError::BindingError(m)),
            },
        }
    }
}

} // verus!
