use structure::patterns::adapter::{Adapter, ApiImpl, NewApiImpl, OldApiImpl, System as ApiSystem};
use structure::patterns::bridge::{Avi, Linux, Mac, System, VideoPlayer, MP4};
use structure::patterns::builder::flex_builder::Builder as PhoneBuilder;
use structure::patterns::builder::simple_builder::{Builder, Director, IOSBuilder};
use structure::patterns::chain::{GroupLeader, Handler, Manager};
use structure::patterns::command::{BuyOrder, Invoker, Order, SellOrder};
use structure::patterns::decorator::{Grip, Gun, HandGun, Parts};
use structure::patterns::facade::{AIHelper, ElectricalEquipment, Light, RiceCooker};
use structure::patterns::factory::{
    AbstractFactory, AbstractProductFactory, Product, Product1Factory, Product1Factory1,
    Product2Factory, ProductEnum, SimpleFactory,
};
use structure::patterns::filter::{ApiFilter, Filter, HttpUrl, HttpsStaticFilter, StaticFilter};
use structure::patterns::interpreter::{Context, Expression, Minus, Var};
use structure::patterns::iter::impl_iter::{Node as NumNode, NodeList as NumList};
use structure::patterns::iter::{Aggregate, Iter, Node, NodeAggregate};
use structure::patterns::mediator::{HouseBuyer, HouseOwner, Person, RealEstateManager};
use structure::patterns::memento::{CareTaker, Memento, Originator};
use structure::patterns::observer::{ChildrenSystem, MainSystem, Subject};
use structure::patterns::proxy::{DataProxy, Ref};
use structure::patterns::singleton::hunger::const_impl::Hunger;
use structure::patterns::singleton::lazy::double_check_impl::Lazy;
use structure::patterns::strategy::{Context as ShowContext, ShowStrategy1, ShowStrategy2, Strategy};
use structure::patterns::template::{GameTemplate, MobaGame, SportGame};
use structure::patterns::visitor::{ConcreteVisitor, Element, ElementA, ElementB};

#[test]
fn adapter_reports_old_api() {
    assert_eq!(ApiSystem::run_api(NewApiImpl), "new api running...");
    assert_eq!(ApiSystem::run_api(OldApiImpl), "old api running...");
    assert_eq!(ApiSystem::run_api(Adapter), "old api running...");
    assert_eq!(Adapter.api1(), OldApiImpl.api1());
}

#[test]
fn bridge_plays_through_its_player() {
    let mac = Mac::new(Box::new(MP4::new()));
    assert_eq!(mac.play("movie"), "movie - mp4 decode");
    let linux = Linux::new(Box::new(Avi::new()));
    assert_eq!(linux.play("clip"), "clip - avi decode");
}

#[test]
fn flex_builder_chains_setters() {
    let mut builder = PhoneBuilder::new();
    let phone = builder.screen("MI screen").battery("MI battery").build();
    let text = format!("{:?}", phone);
    assert!(text.contains("MI screen"));
    assert!(text.contains("MI battery"));
}

#[test]
fn director_fits_all_parts() {
    let mut director = Director::new(Box::new(IOSBuilder::new()));
    let computer = director.construct();
    assert_eq!(computer.screen, "ios screen");
    assert_eq!(computer.battery, "ios battery");
    assert_eq!(computer.mouse, "ios mouse");
}

#[test]
fn chain_passes_long_leaves_on() {
    let leader = GroupLeader::new();
    assert_eq!(leader.handle(1).as_deref(), Some("group leader : OK"));
    assert_eq!(leader.handle(4).as_deref(), Some("group leader : OK"));
    assert_eq!(leader.handle(5).as_deref(), Some("manager : OK"));
    assert_eq!(leader.handle(10).as_deref(), Some("manager : OK"));
    assert_eq!(leader.handle(11), None);
    assert_eq!(leader.handle(0), None);
    assert_eq!(leader.handle(isize::MIN), None);
    assert_eq!(Manager::new().handle(3), None);
}

#[test]
fn invoker_runs_orders_in_order_and_empties() {
    let mut invoker = Invoker::new();
    invoker.add(Box::new(BuyOrder::new()));
    invoker.add(Box::new(SellOrder::new()));
    invoker.add(Box::new(SellOrder::new()));
    assert_eq!(invoker.run(), vec!["sell".to_string(), "buy".to_string(), "buy".to_string()]);
    assert!(invoker.run().is_empty());
}

#[test]
fn gun_price_adds_part_price() {
    let mut gun = HandGun::new(Box::new(Grip::new()));
    assert_eq!(Grip::new().cost(), 260);
    assert_eq!(gun.cost(), 3860);
    assert_eq!(gun.cost(), 4120);
}

#[test]
fn facade_switches_by_name() {
    let mut helper = AIHelper::new();
    helper.push(Box::new(Light::new("light 1")));
    helper.push(Box::new(RiceCooker::new("cooker 1")));
    helper.push(Box::new(Light::new("cooker 1")));
    assert_eq!(helper.ctrl("cooker 1", true), vec!["rice_cooker on...".to_string(), "light on...".to_string()]);
    assert_eq!(helper.ctrl("light 1", false), vec!["light off...".to_string()]);
    assert!(helper.ctrl("nothing", true).is_empty());
    assert_eq!(Light::new("x").name(), "x");
}

#[test]
fn factories_name_their_products() {
    let p1 = SimpleFactory::new(ProductEnum::Product1, "pro1");
    assert_eq!(p1.show(), "pro1");
    let p2 = SimpleFactory::new(ProductEnum::Product2, "pro2");
    assert_eq!(p2.show(), "pro2");
    assert_eq!(Product1Factory::new().show(), "pro1 for factory method");
    assert_eq!(Product2Factory::new().show(), "pro2 for factory method");
    assert_eq!(Product1Factory1::create_pro1("family").show(), "family");
}

fn sample_urls() -> Vec<HttpUrl> {
    vec![
        HttpUrl::new("https", "127.0.0.1:8808", true),
        HttpUrl::new("http", "127.0.0.1:8809", true),
        HttpUrl::new("https", "127.0.0.1:8810/api", false),
        HttpUrl::new("http", "127.0.0.1:8808/api", false),
        HttpUrl::new("http", "127.0.0.1:8808", true),
    ]
}

fn addresses(urls: &[HttpUrl]) -> Vec<String> {
    urls.iter().map(|u| u.get_base_url().to_string()).collect()
}

#[test]
fn filters_keep_their_urls_in_order() {
    let api = ApiFilter.filter(sample_urls());
    assert_eq!(addresses(&api), vec!["127.0.0.1:8810/api", "127.0.0.1:8808/api"]);
    let stat = StaticFilter.filter(sample_urls());
    assert_eq!(addresses(&stat), vec!["127.0.0.1:8808", "127.0.0.1:8809", "127.0.0.1:8808"]);
    let https = HttpsStaticFilter.filter(sample_urls());
    assert_eq!(addresses(&https), vec!["127.0.0.1:8808"]);
    assert_eq!(https[0].get_protocol(), "https");
    assert!(*https[0].get_is_static());
    assert!(ApiFilter.filter(vec![]).is_empty());
}

#[test]
fn interpreter_evaluates_and_shows() {
    let a = Var::new("a");
    let b = Var::new("b");
    let c = Var::new("c");
    let mut context = Context::new();
    context.add(a.clone(), 10);
    context.add(b.clone(), 4);
    context.add(c.clone(), -3);
    let expression = Minus::new(Box::new(Minus::new(Box::new(a), Box::new(b))), Box::new(c));
    assert_eq!(expression.show(), "a - b - c");
    assert_eq!(expression.interpret(&context), 9);
    context.add(Var::new("b"), 1);
    assert_eq!(context.get("b"), 1);
    assert_eq!(expression.interpret(&context), 12);
}

#[test]
fn aggregate_cursor_walks_a_copy() {
    let mut agg = NodeAggregate::new();
    agg.add(Node::new("a"));
    agg.add(Node::new("b"));
    agg.add(Node::new("c"));
    agg.remove(1);
    let mut it = agg.getIter();
    assert!(it.hasNext());
    assert_eq!(format!("{:?}", it.next()), format!("{:?}", Node::new("a")));
    assert_eq!(format!("{:?}", it.next()), format!("{:?}", Node::new("c")));
    assert!(!it.hasNext());
}

#[test]
fn number_list_walks_front_first() {
    let mut list = NumList::new();
    list.add(1);
    list.add(2);
    list.add(3);
    let mut it = list.iter();
    assert_eq!(it.next(), Some(3));
    assert_eq!(it.next(), Some(2));
    assert_eq!(it.next(), Some(1));
    assert_eq!(it.next(), None);
    let mut n = NumNode::new(7);
    n.add(NumNode::new(8));
    assert_eq!(*n.get(), 7);
}

#[test]
fn mediator_relays_to_the_other_side() {
    let owner = HouseOwner::new("owner");
    let buyer = HouseBuyer::new("buyer");
    let agent = RealEstateManager::new(&owner, &buyer);
    assert_eq!(owner.chat(&agent, "selling"), "To buyer : selling");
    assert_eq!(buyer.chat(&agent, "buying"), "To owner : buying");
}

#[test]
fn caretaker_recovers_by_version() {
    let mut caretaker = CareTaker::new(Memento::new());
    caretaker.store(Originator::new(1, "version1"));
    caretaker.store(Originator::new(2, "version2"));
    assert_eq!(format!("{:?}", caretaker.recover(0)), format!("{:?}", Originator::new(1, "version1")));
    assert_eq!(format!("{:?}", caretaker.recover(1)), format!("{:?}", Originator::new(2, "version2")));
    let mut o = Originator::new(3, "x");
    let copy = o.from(&Originator::new(4, "y"));
    assert_eq!(format!("{:?}", copy), format!("{:?}", Originator::new(4, "y")));
    let mut m = Memento::new();
    m.store(Originator::new(5, "z"));
    assert_eq!(format!("{:?}", m.get(0)), format!("{:?}", Originator::new(5, "z")));
}

#[test]
fn main_system_notifies_in_order() {
    let mut sys = MainSystem::new();
    sys.add(Box::new(ChildrenSystem::new("children 1")));
    sys.add(Box::new(ChildrenSystem::new("children 2")));
    sys.add(Box::new(ChildrenSystem::new("children 3")));
    sys.remove(1);
    assert_eq!(
        sys.notify("v0.1.1"),
        vec!["children 1 - msg from sys : v0.1.1".to_string(), "children 3 - msg from sys : v0.1.1".to_string()]
    );
}

#[test]
fn proxy_makes_data_on_first_use() {
    let mut proxy = DataProxy::new("hello world");
    assert_eq!(proxy.show(), None);
    let text = format!("{:?}", proxy.get().unwrap());
    assert!(text.contains("hello world"));
    assert_eq!(proxy.show().as_deref(), Some("hello world"));
}

#[test]
fn singletons_hold_their_numbers() {
    assert_eq!(format!("{:?}", Hunger::new()), "Hunger { data: 100 }");
    assert_eq!(
        format!("{:?}", structure::patterns::singleton::hunger::static_impl::Hunger::new()),
        "Hunger { data: 101 }"
    );
    assert_eq!(Lazy::new(), Lazy::new());
    assert_eq!(format!("{:?}", Lazy::new()), "Lazy { data: 0 }");
}

#[test]
fn strategy_can_be_replaced() {
    let mut context: ShowContext<dyn Strategy> = ShowContext::new(Box::new(ShowStrategy1));
    assert_eq!(context.show(), "show strategy 1");
    context.replace(Box::new(ShowStrategy2));
    assert_eq!(context.show(), "show strategy 2");
}

#[test]
fn games_end_their_own_way() {
    let game = MobaGame::init();
    assert_eq!(game.start(), "game start");
    assert_eq!(game.win(true), "IG");
    assert_eq!(game.win(false), "EDG");
    let called = std::cell::Cell::new(false);
    assert_eq!(game.end(|| called.set(true)), None);
    assert!(called.get());
    let sport = SportGame::init();
    assert_eq!(sport.end(|| ()).as_deref(), Some("game over"));
}

#[test]
fn visitor_dispatches_on_kind() {
    let elements: Vec<Box<dyn Element>> = vec![Box::new(ElementA), Box::new(ElementB)];
    let seen: Vec<String> = elements.iter().map(|e| e.accept(&ConcreteVisitor)).collect();
    assert_eq!(seen, vec!["El_A".to_string(), "El_B".to_string()]);
}
