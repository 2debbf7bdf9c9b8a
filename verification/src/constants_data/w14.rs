//! The raw limb data of permutation width 14: the `(8 + 70) * 14`
//! additive round constants and the `14 * 14` row-major mixing matrix,
//! each entry a canonical field value below the modulus, little-endian in
//! four 64-bit limbs.

use vstd::prelude::*;

verus! {

use vstd::slice::slice_to_vec;

const C_T14: [[u64; 4]; 1092] = [
    [3665809208075687501, 9961087235401014390, 5154252636128485230, 3480202442420881208],
    [8060630229243446284, 8145048667664967412, 11186813643453279809, 3130987834146277988],
    [7201226744147411703, 18050013296250660069, 13304709948611683770, 344369244689484572],
    [6793728390913544133, 937441653906742195, 14099668131155698091, 486591715985666176],
    [12557001257023666391, 14851042695170632967, 4673609796080235089, 2650156459924623439],
    [5565392390083809867, 2793471075970541700, 8384828657981111133, 2584907234811586364],
    [16567206260651077353, 9334195480920824685, 10273684256028591295, 2144190250846683160],
    [15584890428486750592, 4868809924582113124, 183382325764310816, 2879801670998740512],
    [5647994547361473223, 16848347130073229879, 9469830283681721197, 2500322786397043246],
    [334051758597199718, 18009091699590864859, 9716432709784224384, 2687950815029045022],
    [4394118212562052948, 5082768715809471749, 9358647963976870891, 2909896641261125608],
    [9375031233678733409, 18018516945081141318, 356786725984781896, 3177837562189734747],
    [11005284424128377925, 11603605782386651688, 8946611592799780667, 1125574995152185326],
    [15861925714525701497, 95831329391280609, 16762718464125923928, 945175328645691338],
    [15523462245870581156, 7289319927113532548, 8622687815723001640, 410520123034444788],
    [2704605741035716512, 2826737694053241684, 3996482623846082425, 2000254665189334478],
    [6047290583710344936, 17841655306765570044, 4090358868163463915, 1063456909465065549],
    [6055376732650952838, 5587615755954559367, 13733665680130912122, 1947172382506718961],
    [13122662546541341096, 13100893016736922865, 7591047529501673280, 1650917254248644608],
    [3866997942305297026, 9914909954795469410, 7240774004915124955, 1928841070727361788],
    [12537335666062418163, 3182453806951694103, 4959551642562899823, 515590394946219335],
    [4188583109118067097, 12226726714812953684, 15268373453019085311, 2113975749012219667],
    [4728518472684993911, 15817548996473538729, 5985766217526574079, 1375537908937592269],
    [1435873831762675073, 12887792558554267474, 9625540566175417502, 2265735644378057688],
    [15041323748228526872, 5332331422647119280, 12877989635693774857, 1376255744412214970],
    [17030769123201112206, 7773800131656343883, 8572964768504992182, 615885321643176506],
    [2137220273524049032, 16956044880543521894, 12504078486614429877, 1132843717311424721],
    [84110281446274142, 9323397148316800211, 683540599980597251, 3305323147934665807],
    [14286401131928677798, 9807627442037946247, 11491493421595106332, 1358164576260639110],
    [7740713868373043789, 11937617237147089923, 5470073062349141906, 2434992889507081286],
    [4200000538116272921, 31681746745155571, 14117752549694517572, 1226245437504267603],
    [1017578304096093607, 3085747847053545326, 5315284507079693426, 2955578099653159188],
    [8004123757680301728, 11721721606601712333, 12262400059317463668, 1306015495022347381],
    [509241480919133465, 6717083248086111721, 391511544771623242, 998425065561715559],
    [1806220086242144749, 13460271907669650822, 11627687648024743592, 2777388943410855768],
    [8378956114973176219, 10618899417497098523, 4368187635716716400, 702975131153982953],
    [16171311831970430020, 3858828535247753063, 3993530130483084503, 2522372937527268469],
    [6558855039868831889, 2755520662895343776, 182566064058836343, 397753314714713032],
    [2505021350091882676, 1976170522727093140, 16381468144982056633, 3005498732482565452],
    [439301080224622870, 14540456342544514917, 10500409978483430359, 2765106282571691733],
    [10727349382938862139, 13933400234530820165, 5737267974193271959, 2199950720865429951],
    [12007286755906977542, 4779001506624850930, 7191318029394307568, 2619211594074421664],
    [521230793272014024, 8033233825126173760, 10490288810686374858, 2091124940399008904],
    [16671631788185444425, 17901693861470409708, 4974187968504996800, 2196549981026128034],
    [17804064719933803638, 8999534096750431307, 799501354522841337, 3131506768609833171],
    [11483410460310352968, 2767054054367888952, 14554213693432840676, 1512824919933246803],
    [492266784960355037, 3277063123042664446, 2951172385313863489, 977146976228966042],
    [6953703877714808004, 2617285625401914188, 11277030608111227343, 1573775734224088380],
    [219142519412589914, 17336474061109031551, 15700978115736070393, 2735758885144381787],
    [2085227086675712300, 16151690046427189474, 14974145971086714930, 2909952529842729500],
    [9630621075719830509, 6291753263146485149, 16589452657747143255, 14046292825752363],
    [3381622581030216102, 18386722662106141425, 5042197283519976369, 1140912455287540841],
    [10021927844917252821, 9618195722004628656, 10912284286123418453, 3035392164176046288],
    [5811349429006303909, 9607178720850485465, 8587185512717661267, 2515145001701248437],
    [4462083962228343474, 3281587685702154657, 9824110206188315067, 1531785484581253245],
    [8688651153793227989, 15104254832666297532, 16646149786644015595, 1712348516575266312],
    [14859735297050916060, 12762442100423434645, 1013882045166735942, 2739082028572695698],
    [14313499686686441707, 590250441354107189, 1366250580878347123, 3342470529527113148],
    [17170741204376412713, 6477572421549156070, 6447101450490955894, 3387386979289690680],
    [2767229411361436272, 8121857423851813575, 7010631451474270656, 2725407170804730294],
    [5952784318487230737, 8597648654286498721, 16708773647303461230, 1993259860872795988],
    [4470409743730168256, 6565378686148683014, 17417411546556346407, 2836804789869101570],
    [15270943792794316389, 9633813954669284854, 3621742965392707270, 3113744662108566385],
    [16982430028689325866, 12547338169369407962, 10015095230838995349, 1201796828567803096],
    [2781645258969592641, 1286851914393130326, 83366505354166817, 736880693912986523],
    [8693190902712066832, 14613286441922326912, 5177218378506177760, 2033329088098444044],
    [14127001562066068067, 646687260178401445, 15477312532420857716, 2689435053196745172],
    [4899350952578538284, 762634269000477466, 10111110319682638676, 514863431918703980],
    [13755746847673592694, 9435026638193822475, 15665670488353360047, 1915738338469906762],
    [3655941162459800782, 2901910622990342857, 10541689378285981571, 720941798034488874],
    [7835531178905547341, 12885324913225028451, 13828280113625946391, 604658351961626411],
    [15262257319895319468, 15624203196870782919, 15064563415561069790, 718345636612660587],
    [8014387457413022063, 6403487624860210461, 14388516270958405754, 1944057667560307989],
    [15838275754892708228, 10688222767232348416, 18304031538351422493, 2172768196748944374],
    [5053501540237658537, 8358378629062749191, 16403150219703432431, 235873881117765816],
    [13386165180886841147, 10027122639244559902, 11794631661417565790, 1703391496317740101],
    [6153697426894197104, 3160827843828221163, 16471380925068047547, 797784311341184793],
    [11461540587556880846, 13382594601996741034, 518831408964650797, 2354458631434202326],
    [13021271749819660744, 15212586972664032090, 6327059361709729070, 1403652531909376676],
    [17668115903843492068, 16142539839268742434, 17165693267218786263, 2892126695928373485],
    [6432744105564123630, 4532131738841589767, 11402623914727462027, 1856956283459777991],
    [763663519688138027, 2816816273473574030, 39366687059713363, 2813221210357097564],
    [10325284764203698342, 2199915930659369852, 3500025491452909367, 3011287917547488122],
    [4951721628566927643, 5264968996907503908, 11882164993296006562, 3440331375140839492],
    [17629542826053114253, 17390889528696164473, 7702211758915240263, 3103183843830706480],
    [11089319422043399219, 5359526252612448153, 14365171825205789335, 473567714612867490],
    [12078908900072591743, 16682822645131014795, 17427109750548252429, 612946868880127992],
    [3604859950760858432, 14783164530301794925, 15098037816986993981, 382887428692548757],
    [10890241898960407312, 2185451034520854693, 9885722276079660537, 751147021152639040],
    [15984623135510587709, 12823779149323909798, 3597946662361233661, 1601208087823599337],
    [13054676123325333722, 14803049337623672242, 6024663406738696392, 1348171943106780548],
    [8585614995643584228, 17421646853442632580, 827704947396753254, 3430903746739590168],
    [16926195044330067501, 17782277155423099556, 2878436351357152539, 1256673776089162103],
    [16042070201169827440, 14971695133129041472, 7765235377783386048, 186451840182035236],
    [9840415681551921954, 2950552765872602592, 5177576007658624532, 3125846995902573534],
    [8343524610725828666, 3155899779500354496, 609489987357083261, 2734680232450089712],
    [14869968397584839281, 5561552253875269383, 18402912341232246929, 2379017316782260450],
    [3600258111513907512, 3628604945502224878, 16413135708582125810, 1488563992303021748],
    [289851572154433215, 3811643667264773167, 2004716746388978041, 3279183551902518741],
    [13564566129363329419, 9796750888383636787, 7138331000338864075, 410559720660868021],
    [1160237519757700231, 1815511139851771053, 123093373256793541, 2708322410850436061],
    [14504633384888341886, 1580225010812169139, 5249668897958823152, 1993172446188330801],
    [8523487957142093387, 18255059647335836347, 2651760251652789789, 661095650949038153],
    [1226186302137202103, 11827277267884847596, 1811445912610846758, 2021547640201925713],
    [1223840110640907307, 2369607976983276750, 10756433625218456266, 2134810317383068059],
    [500108315151995291, 15315648990681404787, 270016789755602635, 362655393942394004],
    [7997050268881719664, 5869233211251235776, 11714594917231170056, 2104015685462627205],
    [2800255540132502518, 1816141217655702367, 10627967585154026459, 1801027833670267305],
    [2784451877166634196, 5869746826463360360, 894284863929171872, 875845977208789942],
    [2021197517614022855, 4313035606125247924, 2035286313125866221, 1876819836076217678],
    [15661746987209389928, 1945182844857794811, 3891503988975034903, 1783806141134857352],
    [2742429781390510325, 8977802364312131855, 4628555328421265915, 2571321045171361999],
    [6211537006659146651, 3308391242139863421, 7997375030448478944, 1760620712196980032],
    [14296961695364581277, 5672336450764854873, 6008364660103249806, 770522258348203117],
    [1001367913439856816, 9059653202927585260, 8050032069675829843, 1307770594774869512],
    [18231940100516940942, 17521435366532281557, 11802291761193554349, 2624604516108306996],
    [10502716766401248678, 5835455087641796194, 7026954133595248818, 969564531653585981],
    [10171734906055988994, 8536840141941582189, 18446607373205485055, 2524359865425294033],
    [9004486082123691689, 8546908357513349383, 991818177205391600, 1449462026356332238],
    [6923339949054369318, 10213843136141788772, 862900529610112737, 2293736997261041077],
    [14368351413253818842, 6012382441118654762, 4077722209150204970, 403015078794327000],
    [3097960412712484026, 8816974852685639254, 10962793923989831146, 1647353344852028088],
    [3075659617182155796, 15966082803562989458, 11565680342503984938, 1573795790585102594],
    [15376317752307086712, 13938053156442164160, 10412018778382496356, 2485005340389124062],
    [4009457827585399550, 3038431413887912528, 11474136837900373833, 1987547207827053710],
    [17625258699818020420, 10401810924733574432, 13940237554046827470, 3314114051451509365],
    [7431794326854443350, 430167148929244010, 6104425786718587495, 1787396170058771397],
    [6851496802520572340, 7255486273268561780, 7126792133556602561, 1471937348335762329],
    [14985650687104371494, 11345197510572874523, 12330336921190420238, 365636556023099907],
    [10093915640984685616, 10796332779678143076, 16629696881107647107, 81859472913682605],
    [8755858912269976220, 5663902879313624125, 5357126587739346324, 197610810348847748],
    [16169167955254627737, 10125292790124368117, 12180076703068758387, 159362682432367750],
    [17736179912478823415, 4983331922516859924, 5537052512733625302, 2824946692304633023],
    [1657714184618509724, 8578378023504241659, 16787330351673864670, 2735495097204003795],
    [14895877042215156579, 3957333112662269018, 1843573654857322258, 1668604932248706623],
    [4840227916215553722, 17376027016968061110, 358651662471752206, 1529901665028431846],
    [13316042281371537144, 7581705738849993746, 5932299509891216043, 2230008586182158581],
    [14584417507864317610, 1076136887918489500, 7948235546266683116, 3053212039152978173],
    [9993058107371901552, 10355281839042735280, 12162237063000931498, 2531403507830044166],
    [8753126672521675908, 1402416414637876154, 3957839474588313317, 1380899566884061413],
    [9849229135262909061, 17056183113194514582, 4713762778337610205, 2766592985581712609],
    [17207724584949412738, 8206568868038710074, 11395051429595946308, 3485104482518640116],
    [13488323496277830298, 6401640211039555007, 5210077757773232989, 1329036259817207911],
    [10116019462465544785, 3680873353280630904, 3541854223671487681, 2530981076443498723],
    [1078322279472781150, 7060135551046517320, 11319003837555935738, 1016121059822439339],
    [11300877258530090758, 3352432101727963320, 14655014469255993924, 1369945669890672303],
    [3381061925122426201, 735974503330636219, 6297084276884297596, 2291594135857186624],
    [2102583791915758106, 11814812624855701966, 13353530358691558128, 2000104349508749847],
    [14971045419078525431, 6677632522281183076, 16588652990684139543, 198212832580073882],
    [3650796556051198903, 4544889979181292089, 8039001977217486528, 2070277222623306007],
    [12877107580580280286, 6690479498675815106, 16139010902804685532, 29157884677564009],
    [15916554087185309413, 6058579324911760979, 8111569817571897148, 569328213030049722],
    [662201508471463635, 10789988281494592841, 13733372364079548713, 2904268965559031742],
    [17981210333616421892, 7933764465374133786, 12138340915141092299, 945881106619722190],
    [4358444555486901584, 12997873836681718223, 6742805616461919415, 1821062790841865401],
    [4710222895063451256, 10377284841058703104, 16549408261728228657, 1546606694898142791],
    [15190362891974088309, 15158999281671395481, 10776391425150243520, 2134552859105988675],
    [7646354309763384187, 3003666437920667695, 16258176016873009822, 1514898596208305170],
    [3347134003157820117, 8664834394253735993, 3270871529026218146, 2469652094972244962],
    [2185710840066264635, 18443623503251958490, 10403574075451069224, 1772139293861212947],
    [4244837103749532730, 8700275465652890088, 931565062279009884, 2350870623945178728],
    [4265907924402763183, 10192588490404915390, 397542875232878808, 442178072111793691],
    [13036921001436560795, 15491659355210811540, 16420355433143521119, 3089581076313840199],
    [2531062570000818426, 12698224895214281505, 6076593118954628221, 199028187005877252],
    [5544955863187323617, 4627654204638607509, 6735428838092075619, 2038585235204688453],
    [5607274602574420399, 16829603672646713107, 10236539467116213825, 1390952447190757040],
    [14882939415690637919, 9281910579255466647, 4801071451173672888, 1582544033347098093],
    [5017291415753194260, 8503134222288097118, 1342972683790814253, 1189474416769990636],
    [12959920878020798072, 16405254981113469609, 17399554784801514373, 2891429007214828411],
    [1946586403407086506, 9364385552110078630, 1483008670819613343, 421426670846339706],
    [2063372799208763187, 9526163607989376663, 4051589399926340856, 606207517607359523],
    [17212398363442886801, 5097473439015842980, 14049751501415569662, 794841724924337657],
    [288573634005181109, 17441616692499375767, 17226991987520396629, 170527083488762416],
    [9552696743498719021, 16122328255608258245, 1846510350828563343, 2062137281224488862],
    [1886918353178400077, 1321619336137422513, 6401624678666926196, 1874965506916597549],
    [16410618833885377396, 3885057453615332088, 258639649485057893, 1197348917013155988],
    [9135846376880439551, 4036800139390891182, 7658252317537026813, 1985686776374326789],
    [11513285717960633905, 14244315595210201829, 18191227966941055130, 1996313548574758657],
    [2574227500205741545, 7052351832412501220, 8986449449781374799, 979280239422165825],
    [2801366474169951205, 8945549232896384217, 13271478399822258408, 3195575665688766573],
    [17924060080743859364, 272261253962472915, 15764334499115357121, 1700059920308854352],
    [6279489250182743559, 17248639568737868508, 17310645725288709969, 1475805123036773128],
    [14322848543421871940, 1409978223429531782, 8082155558923804968, 681846331389752068],
    [9333942206520394848, 17629305657399930706, 13829565737635883236, 132385248374446017],
    [9479837821105219120, 8099847994750125078, 5510144616761893931, 1961825195768645686],
    [13630126519093635377, 13915582905288716486, 1830866416983946049, 2723515580071320805],
    [18282639207077545062, 16758121657862128967, 2821706706431179404, 297952211152259042],
    [3467118263346849576, 4170755748627513041, 7007567515671266514, 2087813054503681129],
    [16936577077567770908, 8276340635075542567, 4563273539687218183, 2883660926982142379],
    [1929088209225296792, 3754758787523984182, 2091213784572201622, 3109536684479192406],
    [2591376691238980465, 1449556745130170761, 8709273628306548900, 1600754221207379898],
    [2168810832905052854, 35315046955952616, 6978259372172772204, 2185879579842570845],
    [9522452422602524210, 7578852556995700102, 10664279463526648553, 1626056290198653341],
    [16733660873617777651, 9391759041950913208, 12185061549332780803, 2873088821224837886],
    [16302032950885457423, 14798678329966177179, 2366545774589251894, 2750616930446265129],
    [14109469234757662625, 2115774603395038925, 16982023827941958372, 1502184587505173544],
    [15621209103339140717, 10144460829894784742, 3472763483788163504, 2100760268623946670],
    [8140283724279602376, 16960951726806094651, 1582074455643332224, 1279794748119520917],
    [822728179914261833, 11835871686134157371, 784702721202496256, 2362535131362602493],
    [9371161513302360764, 6773171804391887618, 3764522165288273602, 2940092093300686531],
    [2151697317306705892, 14048539777037334614, 9380002097612155692, 1293463114322006992],
    [18111189145171376484, 1486714944792898992, 6885505475830376932, 204570256903340704],
    [2353003101193706409, 14334340997813057923, 11187805964230415257, 3481324163480332826],
    [7525607245174301475, 12453816591559747200, 7333883566603548876, 2277292442187872935],
    [11750613017306147292, 18136535706242344096, 921986505445476563, 284066388595366072],
    [2632743139898043168, 15877682128101303415, 2557462287136307170, 3286743975052068476],
    [2892351939362637915, 13234254976089287053, 9117943922266542884, 1099860788161862728],
    [8508712551871778895, 16630977257439610570, 299403255709232684, 1315397051845982412],
    [15598016651235587439, 1827906781608049882, 1674770365762904333, 2180529517943846272],
    [10784414864961272517, 15248016780952174991, 6976567073894017475, 636744014786546075],
    [604822019862268021, 4341392269670254773, 17192708266992215196, 2964662148001943315],
    [10253502028741916293, 16289273345104702101, 9657264730615379215, 754773569887073575],
    [16765527694231506856, 16868130360749603080, 15088887702766274656, 449658623483860186],
    [18394196446829333430, 3737886138618880753, 9014365444341696394, 1735531730112846907],
    [14720532147676386697, 4985492910101339244, 2213072065999364020, 1154401326638822802],
    [10294416325135310828, 7197674684038647224, 5937524828619349706, 1435885286589081280],
    [4172501265572553435, 1656797314730780398, 16677412300717013729, 2413846500424353702],
    [12589315500002369831, 13810121300923800046, 1962168632977679072, 2213809548311639792],
    [6184924069229502612, 8808946744374825527, 4811782241033971285, 149129161305570792],
    [13389977492573246645, 15736256881107117065, 12523871910518377332, 917994888288126949],
    [1235329485807706970, 5175775090223238605, 1177604286634848266, 1435642250811248553],
    [4828840699399785426, 6573150250457734508, 12158033244845357888, 1322028722841165159],
    [11691421267045185775, 17158287677124117770, 16838308520311404582, 2937938509850326313],
    [2170755770841856942, 16003331959339600734, 4763955780856858486, 1859832324887278308],
    [8194162539143131930, 2870940832856369257, 4497582475524724117, 3463625854456996163],
    [17102465537437681895, 4414076630914335040, 968752523927374279, 1708895309175976930],
    [13880532738087360860, 2620538963572097520, 15744710414666552907, 2326837312760643080],
    [1742236626227348056, 3144454715144820002, 10143958836301497810, 2907762508679810850],
    [6567265270477511318, 14830460938078550061, 2282125310495488372, 2626930776686916928],
    [17107227160966133156, 14249510891663978003, 6533107668417874638, 1965122079675294992],
    [14609974646910954729, 27068227641843475, 10282390106990667870, 736984552747910540],
    [3224401728456439851, 8656340711091343417, 17012490332643639289, 3218750151846332957],
    [12176451678939543677, 8597708328864397609, 11133073618196623110, 941199997836621817],
    [12834238558473714256, 3515681840814936443, 2035812555222471455, 3018784617698906144],
    [12642195755778577264, 16721693098114672248, 9953302779767670511, 1251717541977564974],
    [2372886454878113841, 11881791768348378871, 4605672258400100337, 3004970634888620120],
    [7079406098323693687, 13297481823951784070, 7485931001965929492, 3366252262847977304],
    [15784098564413721014, 2211779913479689601, 14593189805516869682, 687136887572533280],
    [5433621667950989648, 10395348989248970749, 2312194163406295153, 2344854058522231798],
    [9647578427066156048, 1946054062947240361, 17205607670369884945, 1044699225487524265],
    [1394150649039892076, 13809285261982116475, 11516298797120900694, 2727767933848521247],
    [16357450958452935194, 6615614305000300316, 15097650803164319608, 277584638361012164],
    [9274851498868088122, 3820574755477401280, 17609670830494664273, 322957289572480002],
    [15079404792212704357, 16505404645594781270, 958703884092700672, 2998273470713437542],
    [6704557308101149910, 3247215007460028637, 9936791169967225166, 1613089085302154014],
    [14333595894177179110, 10129260181250198309, 17585720092379645474, 71579102016507390],
    [6352102234199000696, 13152475107775458955, 3710756630043118279, 2895332850100542317],
    [1776912195026526143, 5510014174937639291, 13290065006772449665, 1039442362603573632],
    [5968255090430827102, 4251700268817702405, 3233352234458822785, 920718884597600826],
    [6062610406911663367, 17111511776160083716, 954595791130922837, 1930445246575180165],
    [13827914918616934468, 13082313062640171964, 12784684203897066616, 2769891668530035485],
    [4036181915101125042, 6027946586795459673, 16925629782674000869, 1462357531076066032],
    [11820009328697634765, 2919769026755384080, 2507703336953004781, 2859827888244719310],
    [11271944601673444823, 5492814425010026303, 13172063256174874284, 2260959333566307419],
    [473040682395148388, 15153105490210465755, 16763144004575891239, 1309708606376021088],
    [6620552449132321160, 15767373486845102448, 10180493275338896621, 98695975482285359],
    [15997453938035106997, 9307111431439621893, 957477167643417556, 1085117276361530945],
    [14512136228588389701, 5559067165419705169, 11800047620679106739, 1647149112155017161],
    [7721445420024539228, 1899207652443431398, 11459643076452572248, 132951106688672096],
    [9280934763030991091, 4176415110579816139, 8647621923822504838, 720305395232035784],
    [9024742851072418003, 11449278904554856054, 10175074849633989887, 455055463471075028],
    [10675250080483705443, 16394729047812605651, 7723551640758417049, 655064506319623589],
    [465419914112770950, 7988823006594174568, 9159478180387172496, 3383471094572042166],
    [1700747834432086955, 7252816003221531750, 18444033310232460999, 1278362890627548811],
    [14317026153879077486, 87883263184511066, 6346213499305587388, 3128660101735016522],
    [16077759693489112179, 7286781728212270130, 14852912963627050225, 1013731877526873815],
    [12082792392585664210, 11847304359405615494, 12455525505419577956, 948109307576829186],
    [10671311706881509155, 10464108931312679674, 16906720656793666357, 684900797353061234],
    [3942228985098969123, 16776195077490333045, 17885261973984114976, 2094522371691901228],
    [4872995006470909629, 3109752967997740267, 16314519091961561512, 1423023375592500947],
    [15873984012161225075, 12530774432473075244, 1894721003625453109, 2054807576195682614],
    [17817368118635259050, 14966768657330511945, 2525369317158846647, 1767935986515258001],
    [9830071801056404229, 14216472693528422551, 8010159341289640112, 2698572999356995031],
    [10501579119027650194, 18274635285124508859, 4836923190667715494, 2159964184248109468],
    [2394807206828054996, 11755890273275332231, 5529637137017141268, 3037832862645539257],
    [15375633676985060270, 15286107842551808785, 2484900294694340511, 2583843295488535356],
    [8952156233821018316, 4388376674394695708, 9803759167749488010, 1842590095587702975],
    [13223227377591724147, 5511615985825672387, 12009574735169132073, 3225661250075523679],
    [11460790837745302629, 7766091822404329164, 3500572953472729210, 1749623057167423551],
    [13520369719701649558, 5640028795304943049, 12490423026056381521, 2208894515684221906],
    [18026305172283621583, 10594692304482067435, 11904108693200227956, 736595706435724055],
    [1550873974977993691, 11568606698883309935, 9731224524539219645, 206675632250303223],
    [4464101647894404555, 13227064830932853662, 15067837656522021226, 2345384193136872450],
    [18285558318514103176, 749518113700552725, 8102406056817326355, 998992981033887640],
    [12737919448383709387, 14133992521059219747, 3903761499022368743, 3067147976396161089],
    [5811826331377362499, 12671555694256694112, 2900908909695423154, 2993401591775587238],
    [94457375122937859, 6846111407538657244, 8250761727501452593, 637942335759024790],
    [2749710175964386844, 11606927441573122142, 17085100417139081214, 458413293140646093],
    [2937304947289365939, 1474188756781518885, 7273436838838860877, 2724317958741496611],
    [16606198144466395697, 2262440490814950116, 6428178004430501252, 214708752706347120],
    [15604431650296273375, 4309592853982092832, 11030446483052335538, 661771287485736541],
    [1384928894099336179, 6433953067175506960, 13866232028128727332, 3334891945162404498],
    [12650366548489889078, 6028511031275338292, 18030330657265437145, 2177831904516586383],
    [10481100734047913360, 12833018230788607912, 2385307445697736999, 778637494659629846],
    [16843829086153666271, 6459671454201044991, 8649999892879677901, 3325343708845983916],
    [14363277921589182846, 9420017197251800963, 10430999416004624266, 133088313064775358],
    [8169175768636028610, 617807024883924536, 5234860646903965339, 186162471438198702],
    [3249571850134543112, 3098510027893106719, 7662222397902182564, 1806027876271290133],
    [17573859264212903416, 11443049839439253078, 6357571096323994364, 2067962811799420374],
    [8609326290195341562, 9905233817222425722, 14999068333027834032, 1606514093935813500],
    [15622152863852725761, 354019784959906482, 265109171928778690, 261989179032123862],
    [1349951974547871621, 15647589127535271029, 11547908737413103464, 1454952671441585073],
    [3889166489568950216, 16126262928025231611, 13617441618478845936, 434261079403771864],
    [2232199951892806018, 17945221922211492474, 12211004491990275213, 2652359835512504958],
    [18078986563831126663, 16476973510385277639, 15937334861542210730, 2028311479273892723],
    [374117601912040079, 9749913209120760938, 1252982908441067314, 2165753288863613638],
    [14291806648005737331, 4077749331548353480, 7934971504646750738, 18101505145329456],
    [5878235169699849336, 14239458135927429227, 11042065834145449384, 1240928772764190851],
    [14315422651484006566, 417150361011319637, 7611143816927405336, 2571879729708674549],
    [15200028243769608456, 7000092705565468810, 1482804033860973528, 209242713235167827],
    [10023257743254005458, 7909436780864102485, 13106536789288918231, 1792581109886806701],
    [4946426503107873125, 11844051933686850961, 15826726549269139530, 2825532847141378230],
    [18347388686765582670, 13560198040824030456, 17642490591416557602, 1143928467597703845],
    [1360273776724794885, 787748379186925282, 7430131045125170606, 1945236818621737876],
    [17158047076216760912, 3318236026039099555, 10663559777139775862, 3448364776469765850],
    [16718174387749031943, 7214332958015966768, 10722419055246505911, 825417856583033423],
    [8047286043540299229, 15605063563921271392, 6344335624810446153, 290364576075336052],
    [7384576731977651603, 3001686259445962463, 13055810209173240376, 3006383565103376349],
    [15226894731199660064, 10123600846408606389, 15345195561865886820, 2724891125180971947],
    [14062553683944660817, 727327973848158827, 14859254080294983887, 3401696209128488742],
    [9584937641030550290, 994080949914548276, 576167481921523679, 1470812275729272910],
    [13578791867565209242, 14296458856982357830, 5660782900079450888, 1641547243077491815],
    [15438598755355773450, 9004837810860980539, 13731626179477911773, 3327076104790606337],
    [7047284345072349280, 596869916667553136, 151974746049057004, 449174884775365137],
    [13087295506975535007, 13044145612539217375, 3513372685426593959, 1120359105422766351],
    [14714140906814903378, 17381610236985747853, 5584540113233424464, 1204223978988826036],
    [15417820763294308348, 1995475964388424419, 1987461884346102376, 982376294240434723],
    [3325952737591276582, 16352357151937275492, 10699796927491333555, 2562457063420646937],
    [8008050748421117855, 14848751479962215346, 2972405834498599866, 1060810463135019779],
    [14231333703181495511, 15934400393442955552, 3834728802539130526, 1837206966928048079],
    [3652413195375982631, 7616468133069033087, 18115458937705431824, 35564732683858464],
    [17999772103240734535, 413953083211642966, 11923969923343543900, 610676734574112458],
    [10897215019257169471, 15487161600232463941, 7116341359486590971, 3189666386446858722],
    [13535763223904328044, 11491511751963235149, 4489488220546513303, 631014223181376981],
    [16721763443557954082, 18053081944611266045, 2817324273380302139, 2444661951108028474],
    [4965519512639025348, 8971669391568377343, 5154684670653205835, 2911725275446076025],
    [4761331726750932832, 1853139290532585180, 6771562873474670491, 2020677566162062654],
    [12223355774304581580, 5830753346505279854, 4563030152524886187, 379413454058245852],
    [8944522143127872320, 14473292075528101144, 8347338139410632588, 2719289047894420951],
    [17016697107113289314, 15983331626710512397, 7355950780998384410, 2929609637310149873],
    [1709221382134104998, 15935958751344847044, 6709029497468387924, 804711865452172158],
    [7257416293222090634, 9059063492525536272, 13369586329336436829, 1274152836345139336],
    [7835643691261802541, 357756070708627288, 17156140239148112859, 1447201589877285006],
    [11423913823797017666, 15488862303989615625, 3885222946711510546, 1531282669568194003],
    [13907582124240449411, 4346817943476924243, 2688763830981425327, 1467861802720244491],
    [17924681985621674635, 10598301994537515616, 17300912748324651178, 632204909500361416],
    [10376005785618579471, 14956323866828348543, 673465420267735748, 2164731549531518096],
    [13486048965224712835, 15939155210715266654, 538086221162117560, 1342302705763596171],
    [10490300335531547019, 7407296075305496654, 2129962404581664636, 263307249363629993],
    [5081441440887664892, 14738924135844650833, 3304933387141715683, 2888399265689873402],
    [1527532723205514555, 5936236618169589899, 10245019591814787314, 3048490367559206191],
    [3196623683695996525, 16874690669786606948, 15504653211021322412, 2951031716116338516],
    [16623427536504502663, 8094003772908410876, 14604751345982935561, 2376619398182129075],
    [2946334839478322589, 10236137935125513877, 15971592602922168545, 1398870551745709332],
    [1148269694947900970, 12774839664263719107, 1758443076128677906, 2018209823735307719],
    [9389355859652679246, 106292374503301774, 3699282965734240349, 784613003544425532],
    [6082418401554790786, 8939499102978652470, 3695022136398439156, 413534995104499280],
    [8090367900333962857, 9692502755063274901, 15098131176242171902, 2551529055961079063],
    [10858386086017514490, 4612441031955043713, 15027588105681135210, 2393527686987193668],
    [11817044591422838877, 14261926711838022833, 17189915922261031634, 2146005621766529412],
    [4743118812916636973, 223881986117861226, 2669150040564705256, 2691791502571087953],
    [9303496900549221858, 4170300941606991692, 466140082562365968, 899301973128299232],
    [4339635563408103187, 4198252528384817051, 10397892577296052995, 96042916707256130],
    [50522107453384235, 3627812175847341929, 3533118767485377408, 2686898278762924825],
    [738382426063790364, 6600206790873943487, 2398554235870140909, 1694829460499016565],
    [884289264871140612, 6485777309680702996, 4635916348690799897, 2520768429345405891],
    [4846352180851316542, 11852895519548755176, 10526339418137154594, 1009329341223722713],
    [3619978756847681299, 5592817271737253517, 3275826451389843561, 1436220500362627627],
    [10000991497748842208, 1830094595456390601, 10457644742209327017, 464578871297666686],
    [1064836394567691142, 10272439166500718533, 11383087773034518707, 1985326700609747225],
    [3592809242692503195, 3424859633955315271, 15678023971951869438, 2014533552260052285],
    [5943496671131999346, 17886365442766411046, 1025579215022389367, 506749845831391710],
    [2069904826882760212, 4468197611340509121, 8217167349935355814, 440495978274553380],
    [1349603999241469865, 4076688531571200253, 17180262490390731919, 869215469272393892],
    [2570384722882899232, 8055370533182359662, 150320657935089493, 75765676185185053],
    [14663383519765635779, 1708150649165823304, 6564109114081322122, 1848691116212489641],
    [4907039617745972765, 3027014232166490477, 9764545975177431217, 3452633477932353621],
    [13601421672229320270, 10113849386446357063, 454841017887740280, 662452664084520892],
    [9787259930919768244, 4935178495381542395, 13005959315482420336, 961007787839265367],
    [720283129997852682, 18314065613365310686, 16043366146239733674, 224465849198989625],
    [6643135660762436497, 10468499858395422670, 10287975966781916811, 904138507931643688],
    [6188166435023304629, 14149640202258596227, 1082865394743421092, 2637178288068175431],
    [13397605147322918522, 15463809491964584823, 16141936833841675431, 1801120648065847788],
    [2454045366791570200, 4960111459002773054, 5564191752790780744, 132375693801135080],
    [13877976381929301115, 16626424472276359649, 14390656446498342761, 1132899864476378502],
    [16249844913886135179, 13390167803003444155, 10998622324557447806, 962389098577810120],
    [8788764045899671507, 16789074977262780917, 8876158630069690097, 1093105125381023319],
    [2657201581363092766, 11386598674770762109, 5277203309171987800, 3108563180794255734],
    [8468916617165648546, 16404985822611744712, 15143349195499354289, 1810084912506503419],
    [4017501435033424362, 5858846667350439061, 15400077576941653535, 851632797819630703],
    [12549346108839975947, 13671751475109126295, 17832887848359102223, 2713729005620007008],
    [852676742516977979, 9944987988156925884, 2410884257335239067, 3337302562184397326],
    [12515176613774748183, 5371420526641341487, 1828793299313032823, 795735381161176128],
    [6150203800863183519, 2202307222791101736, 11473094871365746214, 1543411686003414335],
    [1481592464756090089, 12327549473760017270, 1474105465097888461, 214071056103730193],
    [3828906348045878963, 4532305493090170994, 8677830968307016403, 2250247502022135745],
    [1545006439452875088, 18237140095828325967, 4832734135058653325, 1225634884792744760],
    [4677412216537964420, 11594144441072435824, 17676226661517098090, 57187144907927275],
    [6723801155982949423, 17429604440128127688, 10435471066785963178, 1654952243895868695],
    [9568108995527097180, 15346907700849349441, 73391072842836256, 1912191355010450226],
    [4973302587876612500, 7797124486775227693, 17789026686860272011, 16006592405610607],
    [13832674822564179649, 10330733155040626227, 1121073735473459904, 697929843891738228],
    [12766314016632475482, 12539714916164172263, 101617668103374173, 1082807178179837195],
    [16962053236564599715, 3806767923484919963, 12346815084869325479, 1224892172102906236],
    [17350827073689184457, 2925771105407401704, 2822443130829581334, 592573019348466139],
    [18193688464324360573, 8881116124094532513, 15059539613783611153, 925799721786228911],
    [17269830953408111725, 16701668613605178828, 16499440465535406605, 1687955776339982767],
    [4684203734032241770, 11187378310037080231, 7146721956376837721, 2075913926240663772],
    [16619142084042531114, 15089305800290115919, 2050557073610063151, 2273392155428938049],
    [11719640994297898907, 13732315242875696694, 15473058779885508251, 3306614433850528079],
    [11925133235413757918, 1952992528510515875, 8647796131482846312, 1526593039171273689],
    [3747310421592495328, 17374007284746341729, 1023606576506495103, 693100495020358840],
    [13576358512047894979, 4259402782130530072, 7144474897000478938, 1799342523221299327],
    [1889906759199951919, 3735678612084916822, 17537298720613784187, 3018426886312977454],
    [13120326308018154587, 8605071937451944937, 3505771864647476656, 985134346888404738],
    [2214674164395893245, 17318955184331156543, 1578935735932658912, 694112107592375474],
    [4905021653564563218, 14692562748417429685, 4258495070183986345, 672352515922828390],
    [503098710467662647, 9293133247974473056, 11459760178022262133, 2365305412518002402],
    [7987399868839433277, 13688436605667240785, 5130205789142596749, 351691617396640163],
    [15448091510169963676, 5786486492977496835, 13526132985622393162, 1652756461044457702],
    [12160281971137676787, 8067451908593572439, 11342970215121107264, 1600540055988455865],
    [7783132986852203470, 6573234870642173973, 7741246074084882686, 1623652314287779498],
    [1399148154035874099, 5610162031233724375, 1239173963929221608, 2401780837420698842],
    [12886928973449146272, 12898450070845464307, 17627346001608463429, 1597926347636760501],
    [8623504340204942004, 16227330949920627780, 16297191302481491820, 752020307225555744],
    [5728002426639037908, 2992061555277412072, 17349253861882089285, 2738783371818873234],
    [9994430084576841079, 8835975911254937137, 14485144549835387778, 3209825206200964969],
    [5310208067909013901, 725349717067962452, 11246584575138221220, 2953073295861123365],
    [7400337605972003211, 8649610610558595464, 5628082384737141552, 2171663108070209045],
    [10422168444559665077, 16242801582322221156, 8690492237733137970, 2486952602113080456],
    [6655992041524537252, 14350176134356899420, 2624959078330852353, 2929324560952565239],
    [14202337528180985186, 10055088763220053300, 14748361826943931328, 2352466798056578993],
    [16060678676635234408, 11471847572302008388, 11669910865119684967, 594571511149218093],
    [10900671924080179070, 13044863876083257695, 14117568570427576337, 1071650940134506886],
    [8733133690430950731, 10121022797542850150, 1279409334230974301, 2266986041499603835],
    [2123701001674716479, 4681819107551859167, 10914999720576293022, 147153589407956328],
    [6246684935478347991, 14176255561638179017, 12263557347316856812, 1543615984384923594],
    [7881160511378044190, 8419400975520771659, 12805556904801808056, 1059971456725721539],
    [10240425424181553075, 3383702346385451890, 8522112258683027655, 604664094952275134],
    [658085133363177758, 231864959521983758, 2806499105051761303, 2707122053251786837],
    [16536256519050054834, 13150850007136195642, 14368370725600603882, 350657216075017303],
    [15832544454473748815, 5438187478007346487, 10758830328613653424, 1639014499367019906],
    [13078025631656887773, 2704047657314137627, 6747212217614396841, 2502665127914012368],
    [17420458449807040423, 16391459347707218214, 14285311787839827278, 2401160076800169708],
    [2783926034028286028, 131576016808996924, 14243312566689611486, 2001238824769270863],
    [12645802133833378383, 17976194079208166674, 14913878196641518921, 1844573843822121086],
    [16533053352009822838, 5105359705557433040, 5677799319279785453, 760546051586915027],
    [16561645873227615712, 3362137530058018783, 15843124935209863890, 1034344276664696541],
    [16345398741575307748, 18103320496545047105, 10338077905895020800, 3309085896517043864],
    [4216924872576860110, 6020700962792883755, 11047180647565467394, 1875106586711801669],
    [13816547395862872501, 2580143563261260690, 9601774935519798269, 1644424675233907847],
    [13003003374943498480, 10547193810403256844, 6830935464353244924, 617124105972586884],
    [7773039523851802017, 14647139269339231913, 1610979207060750432, 2679910063001628043],
    [15130550353888462442, 10914267169486375188, 8500020543471342487, 1576305007518307762],
    [17438768069889766910, 7828454727228249261, 7802633574458316956, 2326104228940375481],
    [5120288842698477947, 9611288970604012752, 11279411172074671949, 1514625252830326830],
    [1968363915159976123, 6590447826628693668, 3729111504852900235, 2740877671033461511],
    [9550898227074866641, 10262196721435913653, 14108171382862004580, 1831057737998817156],
    [404446648720117031, 1827209223461529967, 16519410522284197985, 3228337251802978562],
    [9527187393185320633, 4278011271287784014, 3229842413166675773, 1018968134138292075],
    [17540059794914362026, 14037401771026945694, 11345784396252865915, 965165993580078372],
    [11299937043618330078, 10702218474016970370, 9182428996787469310, 2840919800426285146],
    [5912932912123386221, 13207447808612288054, 11416875181263339473, 1322570675389684332],
    [11409971754357276724, 18200035558424736177, 6735014951307072554, 3377466396835015702],
    [7930147943739755287, 17525390507087432972, 17632766598172700065, 217375183526255755],
    [66640139682054278, 4700509545804071231, 13773374524030722525, 3211779913275557708],
    [6566444191792711992, 9781197985428169105, 15925424608356065015, 579114816567532715],
    [8303605191962122438, 6572494904307933911, 7844473823563020060, 3215788244694885436],
    [4501693917101325038, 16361470435777698328, 7021767237075077457, 32104576055797982],
    [11723517359235954624, 15001882390368016875, 5790746474519758722, 1546794504698913481],
    [13629922985033923179, 110785486105267523, 11817019806862235157, 990074316233406956],
    [3641155722218698473, 13140899762207141489, 2966300861988378922, 1520634767278446435],
    [12470029846783349989, 1269340307622216321, 11518367276659730404, 1267816792980549203],
    [10089941116150740344, 14868160700211687926, 6045889021205461890, 1616028474857177647],
    [15852253818708216771, 15879440036022780013, 14447619157878415526, 3168272962391918822],
    [15981105704280923333, 12709510131523318477, 7976895292434902631, 698714409359753844],
    [12717787380490263433, 2464132223082553706, 9199881215948374855, 265189996435252201],
    [2554046966112816417, 16146327532119448493, 4792474537412584087, 2515991408864669249],
    [15631105939560207766, 54090013534669621, 11168089883095650448, 3261171328836854141],
    [11522766840055392193, 3538620613420484922, 17077389828935544231, 978560964244188649],
    [11872437350903029378, 1486138097248609845, 13683692465854787690, 2207259459900819465],
    [13553136415984608432, 4747311156840986688, 15664497620935088443, 3355331747606095592],
    [17884391662579839333, 7274395564022421145, 11324002378830649025, 902138872769387104],
    [11799519200187327273, 7480986889839482823, 1037982145483136136, 1646224654292759257],
    [13411526989957908655, 833384112495402239, 11261561837129489038, 1309293736019856162],
    [9495164689773042646, 2021921573392815483, 9510940491294893281, 3223366609341600338],
    [8487532514461002968, 8925555715045431434, 3872983666456112648, 1604621568799476856],
    [15181413537681337587, 14669744804291419507, 10825710277021870975, 1476286477983397655],
    [8117408157705431589, 11581502090338978719, 13370038974714130351, 840568998255074706],
    [3442021489765365873, 6560056363939008395, 12013651335711903304, 319643744132814068],
    [9123899736931232220, 7009978039083090186, 11732250832360097871, 3345690910142319479],
    [9537581194504755440, 10865612285259710396, 3713329860924564853, 2421511496410067075],
    [11843990882521416729, 7466698262643287257, 14830096684794268460, 3140115830488890018],
    [521025842052990089, 4339931904110408989, 8066998914201406437, 3409911753881023000],
    [17284378550711034819, 10603584200113964104, 10878628289126626388, 1210834292103708529],
    [3304850137293342701, 10995047290129132689, 44715061923866040, 3446248822392933126],
    [2749685460268912345, 5560269133938985064, 17030473334282313863, 1009185267782444751],
    [13533740942265415520, 14729286195194645243, 1964694697930050056, 1283589559563621486],
    [6192771606472985609, 1697409624818556965, 14300164385809942140, 512931283920627061],
    [7648002775990121122, 15364502184042525412, 17173191451207707672, 2458140391559118634],
    [14951029531449972721, 16663364080330972816, 7539720436560868056, 52440448651970915],
    [4803237932262296229, 5350644760057866311, 3890975438098003880, 3462226208150651851],
    [5517902357816360818, 15515549535571228091, 6717051335620604686, 2040285874080348354],
    [10478853811785414433, 10783008739374651286, 4722649030757429943, 2559147011346496215],
    [10852861266074150042, 10256781657556839046, 10735748767407665311, 671044907482125369],
    [9440517564618349169, 4980096651355945733, 7303766671160732174, 3368310755707083129],
    [4352415808074154534, 818087660232038751, 17165194358534432495, 2645837565532929043],
    [14667938323710655930, 7070721088134291806, 10404220501600349439, 577403718819244648],
    [11651791703828699957, 5743172168800983996, 3473735959070802789, 3077296281393126593],
    [6473670598254301004, 16523574437210007547, 10341432687084624912, 1220769125991326097],
    [6307256060409269098, 2147598509828849556, 1173153040384905815, 2562235026282836625],
    [4460257386477268265, 11935175942386670417, 18293260263938364373, 2084439668728164158],
    [10744924792574145266, 11293914979789636010, 4157097028331702728, 2901045306098351005],
    [657522374443931221, 8211495711631024696, 16105720384583981823, 1961966614607652773],
    [8011732311349216781, 17840901890920645673, 17244230310487728737, 1426550927847867729],
    [12408589913679521278, 16017889233324386869, 1427234865333043478, 2754969581240736324],
    [17649048477373645774, 17682043294766879718, 12370640713063519917, 1924045437681911946],
    [1736632894479481017, 4188893237390542246, 6127713691403659621, 1135244660502962219],
    [1399483024782426646, 14441564413465913904, 1561830389114954018, 2961246291339103700],
    [7938938368142351723, 16155052357204104620, 10968639127401428800, 3328040454832624138],
    [17913612496702778164, 12734177146933263946, 10146733973735643958, 1083462342368445527],
    [3495032989450863046, 15128623389525416916, 794128994073737449, 602287436101466417],
    [5416577784627080462, 17231660070211767373, 17581826495758445138, 1396716944205059207],
    [6508938816152408837, 2615262518974934731, 12913577076420707458, 3356098601989495353],
    [7501153753329818235, 8996669878606912687, 6018010170289798810, 2925241586981066009],
    [7071318622669200182, 8237522608371655511, 17578850607996638995, 1420006285704666306],
    [4567440095739160553, 1533705379774017610, 5053706926260357448, 1867645599325492457],
    [3071979065130915070, 14750461322750667199, 11228382415915424519, 2105382119077150481],
    [4420158591215983383, 3488434496340129918, 188662847186537006, 1608525116868292546],
    [8012146161709299399, 6641235687598097517, 242737733847535555, 3279433987517897498],
    [18162203227180183871, 100695400432935636, 5679933890505013436, 1664009190086306481],
    [12364787801639422870, 4564145322711499733, 431315982378373773, 3452726693710206544],
    [15108773268833758614, 4196884680800074484, 4387028408579321581, 1374196158751455315],
    [4337675078695344993, 5525665475029991076, 12336225860814403394, 641265514818029706],
    [460512987555747799, 4516354434616177809, 16294196618557799397, 2281865080548664600],
    [3658497687033385330, 14095833025238843295, 8043924142826679472, 713327051337207771],
    [15244626093802381819, 10224571671794664694, 17484523059972616342, 961539122658357329],
    [6705226638024233222, 3356192366370247157, 10989143823451582356, 2084965081133754040],
    [14695058039013138913, 15431789700460170674, 4110015454130559435, 2395140166040126676],
    [11620594185091219082, 7783653504510081879, 9953162582540107110, 1402739661722635687],
    [18017599383524210796, 1171955618525119415, 7728098609411470802, 3179585456646543594],
    [9650687740320589053, 6856242325496535821, 576009315856079626, 2962288594516004136],
    [438966677424772899, 10740964012510319016, 169303479910185034, 3206323778980585033],
    [6518896387507080813, 2062476006181256555, 16973182836707018682, 2008605384240477063],
    [10154576362520586274, 7485818637488730063, 15476238912061123774, 1190363029853846907],
    [7889544532736678342, 4758144776962004463, 8726023875511402028, 1456967760788773416],
    [12300477746005016116, 14637236791134303433, 4931042769952530619, 2363159400472202109],
    [5603582303297432209, 757737839766285626, 9238047546440530137, 938421148895975626],
    [982957861492025230, 9782823028302236660, 10500461318373748847, 961740202824889191],
    [8509614104083063316, 18442003654886914110, 2388725100888632373, 3390425163584220754],
    [14698288686915253999, 17262051296448041017, 10326158691419357463, 3239361926781353000],
    [2133081206295030570, 13191415374275248524, 10568842817346580925, 93694700124972443],
    [4748924548483210569, 18093845801375862943, 8114945903314880247, 1087325286803128785],
    [16575059599329384081, 8206916751386299911, 9082809820774444725, 146197698114487315],
    [13441567313620415123, 7307043469756746227, 14682121522510708681, 2396301842796027520],
    [8249658791583236200, 4483597175847192692, 7545912314979930307, 2943116226705577541],
    [6173937433135744769, 9795050745934033180, 4385725444547935861, 575390412805801152],
    [9651228579517587341, 9861986864730819302, 6547804439430460587, 3282511630206143397],
    [12724243190850484960, 11322558202266374966, 9197391726543325589, 1916402315695301891],
    [3141282112585340355, 14339028885929946276, 1276859765707517098, 2446459655424915168],
    [5484887410870649386, 17038301139747080637, 16581709381975164747, 1501228220683875123],
    [16936586784885377392, 14815839471436760010, 5758782954734488746, 2532972859297296834],
    [5054932313249961752, 7866017385670029134, 8241199982134087787, 3043764616137345200],
    [10535461705741614334, 7775644667735071736, 9563643842579787092, 3012292279260347723],
    [16374437277126441606, 12724580160753880776, 17859106911159257393, 2231581834164805572],
    [11927515061310422226, 3707803381423734782, 5347462847461947014, 851147940879882854],
    [10827102067786252074, 11750116418963918868, 13643491080271504410, 573052179029949280],
    [3875127816144941551, 14665895653100908448, 18087941075963621429, 3081988420490987111],
    [17614482978131939231, 17227976984272772258, 18365029882279838786, 2174851034504166018],
    [16361692690999646430, 13819806658876342019, 12674355138554821821, 2620345025694997694],
    [16081928686059015844, 6625984207738006018, 4615610469693734318, 2207491551567453194],
    [13245191198063136014, 10989507098687370139, 16485864201770491491, 413193618474351818],
    [16744515735875409881, 5070209799395135283, 15165357099558108055, 2022839345086021190],
    [11931785217851193322, 18203430912480142778, 3554012234916525052, 1685275471665822019],
    [14039116047015418916, 1943534479435546288, 4681538111791862778, 1512241295567261996],
    [11310162820672976818, 6452410163414903438, 18184358656571846774, 2877764933182191829],
    [7273538435626342514, 11204613580401190005, 16735075168374892614, 317016436256155008],
    [1962079397116367921, 1147904660511982253, 14441947669014144093, 3170767611943072850],
    [12192827519218621157, 7470794665307890748, 8517163621262735223, 275367728089828876],
    [15151305255104202036, 13912273380482896163, 13682208946499656548, 278823083379784476],
    [9722334456012732462, 1536920167588365396, 17141505969660729950, 1411472657532481275],
    [2109804329320222937, 5267599753644732983, 10212787444634401810, 3047231739245301426],
    [3291519292415705087, 416190858214429651, 8179802141258804147, 1127730321079520774],
    [207157730765318879, 6972953048584294271, 9060941282992643008, 492476456323220491],
    [7921589357007486752, 13721023931245037258, 5886638424402733138, 2261449213618310821],
    [11966108957957468822, 3098717248166158878, 11723003985407562254, 1173619724401473593],
    [10491379052107528171, 4960565561595070299, 2632262169012969196, 353283855550656131],
    [12114665927891746592, 3636301107150269719, 8045604504204066420, 2553377166276138569],
    [16018155242476541397, 7735024754099815396, 12607156687349843304, 1551321013853975566],
    [3620374319943433468, 12505954967994839358, 13798300202455552042, 1284749193736592288],
    [18229051796301620342, 10393762474584052416, 4240293483820208365, 2683152753520458518],
    [14897792875954449153, 5436499959296654782, 14775678605189140356, 1770253684142061530],
    [3153964585293354967, 4492310027241074745, 15974661033063075342, 636622324546195121],
    [10520870951521840051, 3741179384962940064, 17534949052152627232, 1004842586428732360],
    [8553579283643983132, 4648795680768682588, 5258458547080538239, 2218473935110583681],
    [1789474566958212715, 14937912754640559975, 15174196630405076225, 2084951542429675531],
    [441846822018356146, 10881374567572069357, 5766597430845825403, 2882414230795025875],
    [6834512398684499297, 9445529738529447000, 16549606058817044618, 2273668488011295289],
    [13178816777045520747, 17304588429393668573, 10694186228606831566, 814543673852600485],
    [7771244503972480795, 1059456207744056245, 15754147583421620824, 2409999722251475040],
    [6859036645987499774, 13945000273589230347, 10167181861564196937, 1110336576301020281],
    [12904776070683006694, 1472186873648137947, 10080887039890548429, 1076138993995086782],
    [9498702726500446554, 4211962553596875148, 14598908930420569457, 1056269298404259762],
    [10306382513152381373, 13547354344062596487, 11680151793275643101, 3149689057178830941],
    [13021480522644774478, 702023742333079686, 240577335020620702, 3414580714896333383],
    [10815560488971617862, 4796681762353005319, 1079157929135960260, 3250020995429131884],
    [17327307421373898636, 549108270410200878, 2239716029761583269, 1579503275202972856],
    [16274437732921989869, 426583955758317003, 1973175522133185084, 2969524395089359769],
    [16571094471876464756, 5915568454182783340, 11696222290704677000, 2389820022037697840],
    [2491199190109345310, 10934142394329971864, 7276257890613286697, 994036851222220797],
    [15575515891239348828, 13367003843532513553, 8165036213822123585, 1024903768367532445],
    [16053947530412674948, 13515910891913168821, 8286879091096089811, 744916725121173098],
    [7499509730182032354, 12498098676357406528, 15280875112583375556, 255173775636079901],
    [6197512666137253038, 2472891612292665304, 3710712671369007277, 2143989645331515769],
    [16307633852109791890, 9922477770256300605, 16698881511513477750, 2305474663938639648],
    [5462906766437831272, 17852839957626869503, 12163102200401706345, 3230858962286791122],
    [6718070715737306762, 16736533720569485151, 10821002345049396506, 2437696879835841869],
    [8709286583619944367, 10524436628337207172, 17304675512259736980, 1358496448655207145],
    [6355443405960769642, 6298115406095243131, 14885454531052778292, 553619366464012714],
    [15283494281440144510, 2049493128458404101, 7455976131612964524, 1434894729229696309],
    [474347838794220663, 1323635170783001957, 3734161404862959932, 2921907907892950322],
    [7185577333448150765, 1119370588468802668, 12643144352536126254, 102165598372644296],
    [16442150592470909, 7402134382347152625, 7185781101846886406, 2025945901889635428],
    [18270575857143574397, 7368468586297058103, 937914837925534010, 755627750511562493],
    [3955189086590661205, 17151237325377572125, 8540028520403041772, 1997420500693220508],
    [2408824232666502590, 16855611290281538834, 4663582790534160925, 3283333151014962164],
    [10424788936362292597, 6544526631457976537, 8140433812915262894, 909132979821007170],
    [5389281013564193182, 9804213107980933138, 744035234840372671, 2177908337886549216],
    [4313780936521785858, 10252445445723066242, 15588792678221916835, 2352587461793229972],
    [9677444103125920756, 16952199441832076798, 10484479869582648126, 2207248163717083945],
    [5695068332077666745, 5346710562063332639, 2766489757441616771, 1438476661208106751],
    [16565922963787916653, 6966271421383867048, 12257683828361039411, 242470978493433228],
    [8394096511406119023, 1611739051457995953, 5833392728564811026, 1320890272968236686],
    [9581522874538082685, 12448313042044291783, 9067812161336215773, 2164862663431641239],
    [16999626703561038179, 6683810528158461772, 14613985874717845092, 2123583432978329323],
    [17662553778749543355, 10026233095035696012, 9681259363146479608, 1973312079962261673],
    [8887592718094894267, 15226376725378692606, 823271935906073279, 1165037584528624341],
    [6741718871244426928, 14625995949746764759, 4711536318920594367, 3192856509555433105],
    [10949655873132175829, 2792848035804837072, 12216449701360319437, 1035091853365071299],
    [13101046929959015603, 10982350653437417228, 3292374668350406911, 1772430180396443032],
    [11627380198968383001, 4959057714499445004, 14306356296418884441, 3051306258272206928],
    [5478983685150555777, 14690277530380206290, 1185009201943142755, 3210490013238111022],
    [1031404680048650886, 8969935276160345807, 14863847820975769559, 3188802795054017961],
    [2727927780785900637, 3458807627761326201, 16473269483034062895, 1199158277677581371],
    [9682897705465145543, 2999197794637788201, 11023950942956007627, 2892732476330798475],
    [168623314399139521, 17068145072734005562, 12143599633651534554, 1946037536591848319],
    [15288848404780041825, 4797047022011959299, 2591977475586528739, 3132257419090188955],
    [2601784014822581960, 17903545843922991573, 5768841229722636418, 2636939803351032835],
    [17968327792752609421, 16553785751726604269, 17627189402083238886, 2978148870638703431],
    [14721683606808874699, 6279751337181845851, 8843190893795369475, 591669170837628359],
    [4414997858423633758, 16648256167694907005, 12090594390025202926, 2868169472459264888],
    [10808325899746603138, 8037560069719838833, 13944992086058655275, 2037081084808863481],
    [3865806443333099676, 3766440013603422017, 16133151953170776263, 3058147520748817556],
    [13186997171502238055, 12228079966706397074, 7273668086524855182, 2151298689482635338],
    [3567619338473546929, 12817959702590462437, 6234626254335482147, 1790009283326667207],
    [3085512614641030532, 6153326293789030776, 5244229848846344411, 1533611087867439220],
    [2487324710213761976, 15469002675904518855, 1733421706364441046, 2076537617305622304],
    [8576304184295524799, 14486315594575576523, 10614371340384993065, 212292122613934872],
    [15670345117454430654, 3812199221142916430, 6427708497402575619, 707410400735892344],
    [8308949035633661482, 754372190383127452, 18232445295837283217, 965677008901134990],
    [4552572375393594226, 17094592649764108068, 2336121126445915928, 3256857503366016898],
    [10478497849781010718, 14127117013162849304, 3641332278849764160, 792041964311948990],
    [2673819699725717218, 14042313293943668653, 7817463376010608525, 3000457078279757003],
    [18330622195245301089, 6423278955260670798, 10325683222478236269, 225957578419257000],
    [14979985943088862051, 2508096583807031789, 15250484445632397394, 1457131663516334784],
    [2297096320031770386, 684797914807116530, 919090054064210005, 1624667500878820796],
    [14398311465206519356, 17229214049564407530, 14205290361994679820, 2143840559879067432],
    [11580319497793344144, 1488421265672653621, 3342531421502686378, 2794500619316046384],
    [1147259850729607979, 2615561660972743148, 345434563099126726, 3296435893967379963],
    [2564204816175322166, 1058431426940117994, 2481269651871355625, 40633275720510530],
    [14013972163114805268, 13501255787023658016, 6953541736647807452, 2025962341051776227],
    [6010680421995139651, 7159722627942189930, 13912534790400332884, 1886883506562504227],
    [4145291704013878355, 7750947622081793810, 8548753790647339423, 1752846218077296657],
    [8665951663234921321, 18261746011653549010, 14467985954727547743, 11811762598599057],
    [15393721262281688490, 14877245538501296409, 739021666822619112, 1124138113676591715],
    [8201364615324677339, 4581879675023718870, 14128679738863972511, 2969829397231660459],
    [6462953900526418987, 15617614340864625358, 16447128245611716325, 3116029283114197711],
    [7110180559550481304, 9620277595680013671, 7500463750178534613, 3239580867396118748],
    [9525433960093602973, 12345430371965376067, 4819741512845714105, 223162016197582836],
    [13171959972801059948, 4911869693214508797, 12561510528571348059, 780791442411655320],
    [11655504923179424918, 3707766058425835309, 11005837063333826213, 865513996559754543],
    [4348899610956662262, 1026512534884358174, 15552712115004990483, 1203398962550176626],
    [271463519487686816, 1585489627191918521, 13261382834781514423, 1734829466343193309],
    [5233300729078024561, 17664182787141697898, 10329957314147244845, 1628945291010112994],
    [13167959906118485458, 12923017346197174432, 5812548929331637019, 506316756358863866],
    [11207778572973123430, 5251351655310080646, 4110097509520125533, 1090894613542746751],
    [8976560061209339480, 11909055432399378480, 9026509167238845089, 1995918499150627962],
    [7524320014544396830, 14847160303485311954, 8425678053625274535, 2942005227621173017],
    [3491368688882597151, 6364551241629502322, 13463581450723485986, 2714352200965132723],
    [2196722371338593024, 12528470010296125393, 2912146062479431829, 2860431401887559503],
    [10372588423777141909, 12748559245279847067, 6600301861708118857, 1148817018470400641],
    [85846081874020788, 16247997936179342668, 10579392796003570116, 621833885983240320],
    [6018608396438669161, 2845999789619597426, 1486542305574043517, 925135075677826131],
    [7841995763518319560, 10674859863592178230, 8632621229049031234, 1160761156331183145],
    [155363744241741678, 14897016621312730147, 1043569256287320480, 199164545264622072],
    [4839289182870128370, 16935929679394376083, 14508972143591256650, 2587230024201862702],
    [16377276348001855450, 3289369070171584730, 5458828678199416113, 2411369347527361742],
    [14234381128425186018, 12446849754517591814, 4587030470363720584, 2044747974922719261],
    [13203536576749030488, 11511590502303811538, 16288372657009745044, 1551686163212914782],
    [16998872178447206537, 17327668674793436353, 16224353391328459064, 2535356730770382875],
    [4182930932596098678, 18429484241163669007, 9529182123986148101, 156340848492766078],
    [10537385950380655854, 14413538708797709314, 4847725420299497948, 1297848959703419435],
    [3337781622459521828, 4763566690422441934, 3869489799706687849, 94048087081599063],
    [8408614049595843697, 204552419794154791, 14499190819329815538, 290802276306222647],
    [17506408679598582058, 13193354221727054205, 1926959571120579094, 1134841530130232208],
    [6049897735351149336, 17014768483106154693, 8434217354830267627, 2824039906344113958],
    [6833070674397924546, 6547940970053924081, 6467924982364207570, 1856144141413296473],
    [4586526921406401906, 17699317353939041187, 14213204848534014955, 1173071972690965452],
    [17501870172010434535, 1687196732131374726, 6591022120474449323, 2060389261552097806],
    [5756377131483368628, 4662523350668962101, 18303103721641790236, 730897026347044130],
    [4524386020313822898, 8251930090005935005, 9582363693371010116, 1719383654715259249],
    [6886651489526745686, 18081792522699497158, 1517572878073738368, 3322311268116330538],
    [13743298721035853754, 16615258080943333449, 6473668439234647612, 1248557911031461139],
    [3552723205834179861, 13833446194591365992, 2230751941067155365, 976024535384214871],
    [8519665682938314931, 10090323300863821692, 7864242772414860029, 1521801674415008111],
    [3497629605950576594, 2252084535410545418, 8831111417187752577, 3432845806337582979],
    [630094587484824457, 1133017135941753363, 8511425591856600474, 2896252525354456641],
    [4083096699432724919, 16499679928814160925, 6197076089362119316, 3153506620968639078],
    [6577337344044315093, 10268803932934043398, 9499405329911786490, 2022757758309987154],
    [2925497360824683461, 956065167743429121, 4133985200276090884, 3026426727320108891],
    [5603721456579903623, 15770743676831235463, 14046654833039932654, 2163980394562175890],
    [13229004143359598104, 15049247499963712970, 15861406159095750414, 3077002025483331927],
    [4218463794225158508, 1874661644730480831, 7982920719588887111, 2418609769333024533],
    [5652993669435004446, 6132871155387456364, 17414285927003625637, 273448231845988991],
    [5135244834140055344, 16761435844576601569, 17925438877831859353, 1388002691435430239],
    [16814776097147255452, 12306377526178488555, 13255749175792920758, 1555699929411336693],
    [6144669905256749941, 7821094416262089078, 9646591712531286635, 3131532477190903548],
    [7290183264260411545, 3576625177965252634, 2844552950630196883, 3104432321221663828],
    [12382042208438306305, 17422604632137661699, 5597772495196122968, 3445608965713508395],
    [12842841897171852816, 12951973585049531510, 9998449386757677514, 598516785076984383],
    [6694917065804387559, 11238867436694681445, 10727683719481914345, 2794263069492487395],
    [10595456143733204302, 16685053802672307627, 5439426615851871646, 5018489242916677],
    [1726454186830493489, 1669886546470986462, 14158046756961268600, 3242313505521453062],
    [17423668271137319128, 15319744469049727793, 17553064910870146129, 1788515771341868426],
    [5952356393286706919, 7019823598843003355, 17644264924352441318, 1796954989756704750],
    [3408516495087424240, 11031291174447153505, 17913179031550679123, 2914083814319175107],
    [4297466697402379382, 6394731427092208150, 3475881782426511636, 2771109733216413115],
    [5010435221172354473, 9899457520657443201, 9047319185092343594, 280150267929917107],
    [3916355389224859631, 13775480411545502850, 9320191869710417026, 1699066575955510865],
    [13493412110972131376, 4358086097234471520, 1222659937998578735, 1326216251614632348],
    [12436199311687170097, 11950382240061478207, 16391081589820550614, 1079390341878653937],
    [12986011716469025431, 11576507891787833519, 2277396623751451648, 2914654997022441542],
    [6708165748409873454, 12407410878031379409, 14138684794204183494, 1927329218259271653],
    [11898083422326595831, 10982305659718123248, 670949221402575802, 665873659145229882],
    [4824809202000241742, 12571638285675095828, 9508734965685122725, 2675360889410168976],
    [430595385767694389, 16971973589471351761, 4808259180470207587, 644992287543870793],
    [3829328256479221173, 14792579256373854665, 15360224198016323812, 304164085532665504],
    [3041891728550580137, 15801287238511019607, 17674489311810660143, 630412032802100771],
    [8172047249695844957, 5267784796461176861, 12736130131186520867, 3066479726791913378],
    [12024382379711081115, 15356950680879645616, 3177805977675550340, 2209435946072807877],
    [8681759652294642925, 4650257670320244206, 3174310218392310442, 2963660453776156052],
    [17213096075991473959, 10773206427296469864, 2222437783420335200, 2383521795095644075],
    [16699393324332704628, 9097482600152579043, 13842980276578098289, 297741130771451992],
    [17617623251751712725, 18254751145374241970, 13644568329817065895, 1737360145797960942],
    [8512066113614060373, 14932397323458562174, 1977771048175111454, 2382329984473213041],
    [5348866336855653516, 1682616408868733589, 14109143715833240575, 15946424232463129],
    [11069753946711768809, 12839300423532419328, 1660917490299520927, 2040041180580127046],
    [10593785607236904843, 14268142739358787474, 8009469063645933582, 2358888146675644053],
    [1637738335522178015, 16789927722554028684, 17475532201867727471, 1791286458581849340],
    [11295973755930588463, 11123954640205588422, 10664207682940731993, 2958407083967715367],
    [4469197855093328, 5571526505095123981, 1236686941872904062, 1328827716806400855],
    [14286681802207690059, 13690172614390281642, 11966905997611467411, 2615447921881288965],
    [17139789675706889774, 15228963991322470217, 15878444659112608490, 2683039715378689897],
    [1876596226615869300, 16357166693866068055, 5732981127031790442, 2261376088575170151],
    [7712694532029007803, 6576123365832081508, 6352609529844898749, 1836762229569276137],
    [4899980761252314950, 14238374564369413663, 15868238045124015425, 992223654298488315],
    [3799827750450909887, 4884851657180052901, 2932617977337727631, 1264389474250735477],
    [9467489059948663886, 12562945015206532346, 18069209003831403334, 2389876661731103132],
    [13994185597887068246, 17254689105799193518, 16595149232759480230, 1349940850609945289],
    [14653223178672437645, 1792185943009242939, 13931379549179677146, 2170149757940350330],
    [7888343415913426989, 10270920037489577577, 10217975819536733759, 58151912065024795],
    [2379271160654294662, 11953828796699436780, 8578985506304868700, 2419636036982057082],
    [12604894467894662034, 6052721197893104706, 5700681402439048543, 2467027580441230429],
    [13477496367458564008, 10503070243628117004, 9173139082939897052, 2666611519646560924],
    [13765026971267977215, 4066931173263297644, 12691572875834796343, 3333662557293485004],
    [7552362061508547015, 6752476959385255097, 6978877195277945995, 2372015695944223787],
    [6478534976977489218, 9816020434129361647, 17468750561308855682, 2693460600302136177],
    [15730984962057300804, 12251943522738240713, 8725280423018805011, 2358785623262635961],
    [7325787399001085948, 8866651824148090896, 17957151081050908673, 2934720386400168157],
    [14877114397981701218, 6933326120930310779, 2509896450238422236, 387864643512271717],
    [16570130566259059342, 3426787798148834049, 14428479209135744264, 654296367550886131],
    [16563478650374784211, 2763425984708286285, 10027907381122685453, 1589220130271469622],
    [12687209294573618749, 17658905314759047149, 15163962956795264014, 680514340363928707],
    [6230702173119594302, 6723559732162677119, 8721371530444034534, 987254332156053939],
    [6295951716884769996, 1333117683803648143, 10700014224784503781, 2742247620875015143],
    [17607607436103151606, 863395622595226848, 14079426332273546268, 73156871667232274],
    [3665332428737919923, 72259012598124765, 2031520229250916201, 1838939858694083457],
    [14448533446206672287, 9289030242280659315, 3354251880341873543, 1020104368105457532],
    [3639904049777400296, 5460308587461401968, 3110009047817273866, 1542093718062513445],
    [8417686502455753631, 2113101800992735216, 6124091613039367849, 2135749006019760428],
    [6419431150708848405, 714986797145895346, 2598177300851624390, 2938786395502755726],
    [16372045715444920668, 1946129576944787898, 5526825630074371678, 1335089214519046659],
    [7836611349786234338, 587254466844114407, 13709313681547498224, 2827543501598922961],
    [10779617271815185832, 7295598691540196971, 2882203973460236410, 1113482646527212126],
    [11232840322038320115, 351365500871779769, 5678474837797491705, 1247655057893423210],
    [650701385214347622, 11524133288044324327, 17959481058806076349, 625335561988843404],
    [14922071687466211569, 15777164378446202399, 11672623562872820220, 1901819947375532800],
    [296071128018245374, 18304681230027546632, 690888556936201367, 900641708795353748],
    [4825108385445363004, 2753542164789225778, 7475880707561014808, 750453288296822888],
    [139706816370041675, 4014050744305914424, 2857495306431882441, 11373858891491673],
    [36298364585035986, 13920658697393447717, 15528159203420819757, 2347996990793724821],
    [16231255820283752181, 2906394840970960736, 3217920394726679203, 3083007511632631416],
    [17959906675147622822, 8372400269563325340, 2542491523394145029, 1247093781604465601],
    [188301566885325166, 474794169040545027, 555379340754633148, 3467735481267371672],
    [2520609927311591211, 14573781901165745088, 1351324416844166535, 695095597795621118],
    [13173783118351971208, 6042887437205665571, 7662684712306567210, 2049018899923068153],
    [781587799409410431, 8664796995440185030, 6180509262532753402, 4173855435236124],
    [10805077553487186186, 16830268983272930756, 6800910370095801723, 1819763859884588505],
    [3673851093354607331, 241017989258429723, 17905473583590598197, 3035120841667888644],
    [3414589825039504950, 6286692888080351486, 1856473519893512014, 2438134632882920300],
    [6938913682376337358, 8169340349055661908, 13731356200848918495, 2462802826535665790],
    [12393974100322100777, 2231029122548344155, 3169044854855082681, 1278093424094214376],
    [15469438350636295344, 12181915772840971348, 14208765191725720806, 1582500209475287015],
    [15839692583930229335, 1186940224051694598, 7086872671071788255, 2175976043154959602],
    [8984618451801633116, 11308610363490393272, 2128387425053713519, 2290806305105075927],
    [4379491366042541773, 2107153873971849333, 1081547212121159769, 2383104965294943188],
    [17558224832255803232, 16265441874355413680, 7666169618324938899, 479244124266856569],
    [14342453835443916390, 11158433482732517798, 16521407088274221560, 3173445257027740761],
    [10460834290704319464, 4278531325538023536, 95022442243756084, 2745041791701799042],
    [9745007156981131746, 305819010769304158, 718776879453302640, 525059499860860969],
    [2903701080135829619, 17233302103245476517, 15914871534044373537, 2990022967229658051],
    [15827235495714767430, 3665227301611116566, 18134553366739510540, 1985085896715733417],
    [5441435934776234918, 14759769485362176595, 4814661718192697455, 1761682402447638382],
    [14753612864088987243, 9502049130100020101, 82855689937735066, 713822766716469424],
    [18320661888107805423, 13363371622724727685, 12187791904157683523, 3243004984492220782],
    [563326920600808153, 17934388116883470958, 5605424411567004274, 2375172688927331386],
    [114645691595184467, 5372202667473424564, 3537036227123711513, 1443507246726192084],
    [9028803121484656105, 16057330280958586162, 16993598704223067872, 2210767171311799299],
    [716878123260534182, 7137334938263716640, 14579750190462107376, 452380017303596471],
    [13637453492117747367, 2415141214314941000, 13775421908686765315, 71177826715122329],
    [14678872630919961061, 17004106153250884968, 16160437829156927594, 2471426296953198491],
    [14480585546405583387, 3195229115240764402, 12732240513319690883, 1024444810923920895],
    [10396669641976243359, 7605785130523432839, 13832179366984203078, 26703523840948844],
    [9886670774611214056, 643653620336880343, 6524063097668503083, 1250836774709855637],
    [16773087828883410677, 14742504418733763808, 5009086591128163555, 1110799885133111868],
    [9022843111074499576, 15417281101487599849, 14959129372534117638, 3092819794477111821],
    [7037602789898887782, 14529085157892544711, 15720593693867779986, 1953692679179476984],
    [12076643096946137892, 17562340125061678960, 6401256931734655423, 2027207460254183439],
    [4155915300290219697, 9568901354305512337, 6384817217481309642, 1546716623525545825],
    [6800672889283228080, 9793183175290162781, 348181647679931845, 888068531040045611],
    [3652845570137196418, 5223144436433536200, 11535810128560092905, 705139749854179347],
    [16297429838840260679, 7139527720100449675, 2633390273791076677, 529482638191648502],
    [5054779702242054220, 10353646185347980700, 3681934409140974657, 2071697282098511257],
    [8930247326605715047, 1085644213789534140, 3674465487839561091, 1163141527828927464],
    [12450099261537756359, 4734386073530434173, 9592304344687498493, 2881257876810099940],
    [6320581053473436568, 10875742781879894575, 5898482259984232940, 2419564189266734839],
    [12566989496760377652, 13618998980673992821, 16347819501454594570, 198549180014059592],
    [12160254099840413896, 5555915689822683893, 15904352703399670398, 1377609478272299890],
    [13818964476682267193, 17399649987019368626, 9786864804116074027, 1603392175801480908],
    [4426898322919872773, 4685523973983971290, 11369091456136926639, 1887803766590994666],
    [15841543738357654445, 15937346671071091749, 14796397069117553751, 2743703074483655135],
    [10188814910289527766, 4553733916390473893, 4032509707790461529, 2100060014239632794],
    [13373228434625757143, 7665827705881697127, 10403819824709538754, 2695879334032129824],
    [6263576022489748906, 2937622971944989883, 3643984227765193627, 1204187136402777867],
    [10890346794396611010, 11647373238580048707, 9168538434860457193, 3117645081513016912],
    [2363022460284328949, 18250135682554185604, 8348111211965364261, 1761867844799232932],
    [7905872666115570635, 15105618533425237154, 878935385071677448, 2378924424480057146],
    [9966475437665444568, 14183826550833413229, 12970616795279225155, 547688453660694360],
    [11745005449128284724, 10349809200592325031, 12318722908758788735, 2355036723049367884],
    [14041107871127620636, 9669271304233621639, 10729988703592682553, 3135523818051977109],
    [12303883629884621505, 2324769785873180039, 10774595864239651082, 674444859066104409],
    [1856273361843576446, 2889458847520255287, 2167585517911075018, 644805813235328897],
    [11409221299751329575, 4653103780835621674, 4955080623381559294, 2207456774274488764],
    [7678713640450355303, 14619197664897362565, 15481065998618077132, 904836021989700333],
    [18013495234065451011, 8304695633523050908, 13556751692009419173, 395106508492816340],
    [1423632958834696703, 11235293450487202113, 5587944821635630216, 508734181583288974],
    [14961557744517028884, 17003926621962805503, 5137838134664632008, 1284471160984932352],
    [17875193136670726694, 10101877925924303795, 16797332598939043529, 3335022177371631810],
    [13276750904092330710, 14170600974681886904, 3824188497788832547, 631524255532113131],
    [7399567367956720542, 8187312827839617278, 8943705213046594333, 2813248613846458414],
    [4077603204735149444, 4901696534177860670, 11336129066311574672, 626139819824594255],
    [7502224818910039516, 1331921790246286944, 9176950151584207509, 461254474894859057],
    [8600301641337845465, 1576703390241897412, 4517712382232213114, 3316505646457658897],
    [10656387587742921307, 9483242814920324928, 5564381814757364890, 370167945885750604],
    [16247659482614899915, 9388766127791236566, 15591230648192430752, 3426254878838742388],
    [17478482230762345663, 7007624382527263231, 12082005531745549787, 2493613202642245379],
    [9036188507619125710, 3424790632860950914, 9684961076659148929, 1124076567637771198],
    [7836509203171794040, 2097485421336397842, 14736837616479751778, 788512936005479440],
    [8164064145543597703, 8979062069204636792, 4634247481368898193, 222777912480704165],
    [14221766881021624520, 11565915572297379252, 13208557518405658255, 2506332932363803334],
    [43541661292501101, 3503392618610507739, 17679264026051857177, 1241788953740462540],
    [823265070439819540, 11070394538818468579, 7565537856015972107, 3080208314617659343],
    [16798287169855397800, 720459519013748010, 8242849381493292360, 3446659781170221822],
    [7936190477693876653, 16229160210926839984, 18104913605256711657, 1702781753782275155],
    [11979021211175110295, 14064412112452424614, 15373654820663433332, 155530501182487058],
    [9984025545116655437, 58845927380818891, 2238731182719386345, 264650217150789217],
    [16067052775075926517, 11124330749816924485, 8670386682539558866, 60009326896164873],
    [7553030265325195981, 237121859910907099, 375299200448228222, 709782508105767245],
    [16725449760491781726, 160688020417922109, 13347740877096865183, 3034876377988364167],
    [4418991547467494817, 12571564858750323203, 6338428945829116691, 3214339945162246779],
    [15733421768907940846, 12133917469831812523, 7283842793557954209, 1045599844813796243],
    [14337994612004767835, 7453303324844617779, 4250265679354047931, 282732720918158353],
    [14874138196815126051, 968349258500462866, 6731080586717804077, 751994333920937850],
    [10298792989760883874, 17977234228989396078, 7882235855123953050, 1973280894671884263],
    [9747900617814806873, 16234410445267368334, 14707790337330517183, 2630378916986947899],
    [3312244913901083443, 5656713258535673474, 12857674112142689797, 3211842247974069436],
    [2504075887032783473, 8873810771628621347, 2564627213517580359, 2508431292061201298],
    [1716336354856776160, 3800336695516112563, 12442512426339002212, 696383453947657560],
    [14364434910897281729, 6791825965755765202, 5112395769880254763, 1462981950771595654],
    [9322342923354105164, 14704472820059726207, 9314023759445650270, 1088245884661385992],
    [13822729487508548422, 5111422675431699172, 344600620554724443, 2199791752076158522],
    [6560507239364342727, 16365095444151815464, 11921596532233658419, 2640366778523437594],
    [17975412636201096120, 3536189948889011214, 6853651272494518173, 1041368201356998693],
    [11551122142516760526, 12647984507613321556, 11503094330270523899, 1184209105017354526],
    [3120043126772715389, 15280370481726901945, 12717830215354813846, 1915482605675314186],
    [6738251948140491489, 15184581876610037696, 13199239672998407593, 1836235896400807047],
    [7412821494012958152, 4615471610972199636, 13590186557537275436, 1587612652262749996],
    [2766568378115497526, 11178603442897967072, 10911451363296892815, 596771188120754231],
    [10622660056375835492, 11426993548436309511, 11386531471828162065, 1494833873801466881],
    [1664269144550090757, 3440952281214107539, 1755656763459420136, 237024558715926168],
    [10746010144562920719, 16208074289073479310, 14345769572880938243, 2031578576916581336],
    [7330736261123596743, 2731737372017695734, 7138797088022962276, 1351815006188728340],
    [16080580470766443200, 10351470913048492128, 15737815729379212562, 2003538558088907247],
    [12794323167676626656, 8867567998242865870, 9155468727017134843, 3353663850025235512],
    [13112559274256333477, 2831047036228472617, 9216452930662254700, 2527819796821074955],
    [16320965908948467589, 7912025705048056708, 12450650394507738935, 3054855163077197480],
    [1058813171110676122, 2304766725672176570, 17554289473924190848, 2957227116462207355],
    [10482796020108512787, 15362551357550469608, 10065446771962791297, 1699974725846339966],
    [4588695506485370036, 8142663184061996664, 17245712651216708498, 2502990668991753722],
    [5607535329646488460, 15362217708720463442, 5015467367917392396, 1387343666347376757],
    [1039882497312910114, 2011677530978958171, 10908413939317592623, 667317441782961629],
    [15859365620276393041, 1667095241244607638, 967752133885569443, 1037441771321107364],
    [8631823128439340393, 2962135238845298153, 6158495351450985909, 77310071629736836],
    [392973366545410577, 7742842441108233521, 985983608309203606, 1986585345411790491],
    [10475358314133287978, 865294124581794442, 18049965057997498092, 206467914781855009],
    [4158273131149714628, 6362050048818699588, 8767959531073536468, 1594915438813333460],
    [6764004779480994803, 15023779752332503104, 1872037577359146064, 3452095260446938025],
    [9552858416046982088, 7152793562759731897, 5091323593739415725, 3221889362706030636],
    [15936689788971930578, 15928359966608160577, 2380961328672065459, 1911072258213550924],
    [12676977591046593426, 17930858522916123194, 14343857760609569042, 1499245279047753309],
    [4867073553652069051, 6833357617977744619, 7325279934680086323, 86081733095062590],
    [2547086432299061494, 13783300313401541406, 1426291311444039324, 2180035732893397714],
    [2235650418942333412, 1071425935881146859, 12978794830784653680, 3212123462634883182],
    [8427419105477852242, 6325977509366233135, 9215824218266734769, 852732118767099869],
    [11752851598135836902, 9677970633905380276, 2196153907804942634, 2347586937746979753],
    [2744421351644043310, 11298922482184203789, 8201367046347219884, 2411813204625997466],
    [4639250641587736122, 3740888505563382022, 13485375910128724664, 2476545078798204032],
    [9343581686047221057, 6881107928091277437, 15869918331262904786, 1870709721082672481],
    [12166133977993201729, 8600636801927494332, 7542959398124603143, 2538418479691832005],
    [16308526988649156595, 14370812725113708225, 13002675719823986938, 1788170578101646963],
    [15622755817924095973, 11434321919505284261, 5640184903474881304, 1691847947257727707],
    [12011166462755575885, 8673849764905726301, 16429807583299603554, 117137642388878969],
    [83595621700039941, 7994405358707163967, 6881018722946476594, 1938455536982762783],
    [9897704617969464664, 16200500365646212585, 8167405977855287150, 153490661361558154],
    [5408188219801851410, 17610155811800316059, 15990246092974594447, 1686959153387976862],
    [10406117287002653327, 18377207161145384191, 16435703154193484147, 3434252530604913685],
    [14738335670776767174, 18350325206034124403, 16464790970774997999, 91422727194447778],
    [18325014631428340829, 17624431735163713423, 11153376973443399361, 1511426847570636844],
    [7443517543176527304, 8805644383468223867, 5715730375824377268, 2443200664205831479],
    [11744600875075602875, 15385074300663945007, 398409671678687200, 2932029304882249225],
    [7603836448655537228, 8950852344649908262, 17597397725420722922, 1879838662585701706],
    [3216424146487037671, 17957295645022149149, 8290876312431758928, 2603794293355934200],
    [3421372783098277838, 14108504652192131544, 3147063564823754342, 2136506283149027575],
    [11378136919436612937, 5378595088466832008, 6866228615021552058, 55295642975959729],
    [17619232211151207351, 3907065545808088725, 16494141503835198259, 3458767315214129899],
    [1140238947752241274, 16007243333385048557, 7627686595143398037, 3008084127929054757],
    [11370676809679593727, 13257461862511427101, 8532220507686973366, 918299157981677740],
    [11546106176681409573, 15610943230872512913, 7537416092589470153, 2501350179985107908],
    [13337462129989078494, 12312517242821793035, 9745482032073092923, 3087466636262504252],
    [7557837186561329154, 17915803353364404310, 6690860878661387396, 845837477039398220],
    [7272392002156643230, 9834693772070626868, 5887926279119004682, 3157397885827028406],
    [3218146979062508434, 8228880895571486509, 15519479223319327225, 3268189988891154365],
    [14777127852292738722, 4986483033962549068, 15254479702798533834, 214175608927873377],
    [14741571531710804942, 3708171011461635539, 14131381709357572814, 2660026209518984806],
    [1420302244771010191, 8017703616514876664, 5748511759678067212, 736300450442690046],
    [487868309559472666, 10836923701655878770, 16216554078578833591, 606395108302130619],
    [12617258874400845568, 708555754569907980, 2524725708203740589, 3159078790912112604],
    [16672715259001760940, 15644857226850313205, 12891295724171218271, 2283119114718986074],
    [7170130220986876229, 14846606055237485091, 8154710399196867257, 2804194453449758391],
    [794757983501625599, 11085618440030636524, 5214636202991519036, 2139833294933769800],
    [4003037796057815531, 13127505570080924463, 18254178341180140636, 2663245265990482984],
    [3168202477788236510, 372756214611914315, 4412269703490438401, 849963091263873200],
    [16019674917238286203, 18362366575134543443, 15799761675053270985, 1925127962968835569],
    [15934971196636915414, 1752913975263800493, 8341406935533139329, 2638490750233858612],
    [4494617397920890915, 5563275369945244532, 1322654896346019477, 891045812299696651],
    [2711837042551504080, 2041704653511726765, 15033861369737810575, 3312688379179827965],
    [8977330949400777713, 326096396568579109, 1942280639733334242, 2435935245176492464],
    [452680078134796709, 9828956129250348516, 8405448870009476180, 1999258899811714383],
    [932389502996574465, 13891201802906813099, 12209712681324029456, 2576469412209341364],
    [12952285743733629184, 16605262872583490502, 6209739326633559814, 3402202429714183990],
    [16617015421996802471, 13709075732240153526, 15234517318191384763, 1076673396693922273],
    [4842790270687337199, 256973270908835420, 6639662211494752171, 2247279821901895507],
    [2661071776467439522, 13949203385162668881, 3380702961794649690, 1473008038810441997],
    [3702021381048353485, 16719111523237673446, 15657242036149020402, 2778217493935106634],
    [9611739898119590585, 3006602969820381006, 11865818759539351941, 1287501417541449272],
    [7385853119207347524, 2335682353786567366, 3643451223575822129, 948696240161348533],
    [657371123400436191, 225001811680395992, 1984933397784167413, 1136758657790626666],
    [5620043648392451844, 1304891735299736085, 10048989597486431034, 1027351408044297487],
    [16925384213762283400, 5014463283213294264, 18293766258819750036, 611131278121054710],
    [4756753215299527005, 4170940089998006628, 3824877822449957653, 1323376235941109069],
    [1710126523629473465, 13655484505823550856, 15776882928391221239, 2274788890383011103],
    [7202163281380926876, 5601140415906015312, 10590481466345508509, 2995257376191571453],
    [10078657498655090133, 17786137215137606172, 17293455811218763673, 205558166793942736],
    [7656813284446166067, 3520508275171387563, 16007781956004243513, 586971894302876951],
    [880230139344528172, 18000713966102775775, 8097902242748262294, 2098821662463972621],
    [197079843399589956, 17890193501434637739, 7848734123638334571, 1970228229525359312],
    [8016663265373307061, 7381857079806584350, 12089751231774030883, 848815043250724009],
    [12653692746586288140, 3883056206678865983, 16412337062412554846, 1916100323333222676],
    [4162685363816980436, 6054862041660358677, 8299737761197565332, 912799111737722340],
    [15589798502361580575, 8494388202052080530, 8135933180163256783, 640595820219343328],
    [16503308198563182721, 16339521026571401290, 9193732327126890937, 2742183464602143019],
    [4249187833919453507, 18001161104201751415, 2187563663062654287, 3332339172884552628],
    [942778314947198700, 28027422148456564, 8654544170919837674, 2436723912216993964],
    [9515088398476627313, 14732874649471062287, 5638180869651970962, 216632012034770536],
    [7662931288870798006, 4382506005281903337, 13908956184511048665, 1292062221595635278],
    [12855418067320898761, 2085041191311556531, 3513668959295664941, 131779964051797797],
    [6228844557289818002, 6171492891294488805, 10239125512937244525, 604014826040065651],
    [15946087380506832683, 4931768088956290757, 7881659294239624513, 1817083427070392588],
    [4153268354063012438, 18338074089794946528, 11723363679278842830, 82947564703631450],
    [15879971466940303418, 13467960068150765571, 12567712077990396188, 390085569176330773],
    [16369896681879105492, 5503384428336472954, 1044329296486274813, 1145628640838412543],
    [12437474999785990995, 11300640827993436514, 9931291934172799079, 526906613375174158],
    [13827268447264533254, 462614836351012298, 2392494192659405856, 607534343771088600],
    [7946141344957397914, 7680817096401079945, 7285138384419316908, 836486272225347994],
    [11839089890828814011, 2030996578782349406, 12600008792345122698, 173916582159434941],
    [8124525044872662445, 16866906504459830252, 7672368458056822663, 712051917521662177],
    [1750586080252856630, 6852783572586251474, 4888802655518419915, 2759762525332944975],
    [11918014383970519714, 11611448230258366947, 18109038207617562053, 2658440497654726653],
    [16204092254781470837, 3635469409590654437, 10361044372094516810, 783567850436240943],
    [11101093157830810924, 8910096534140477537, 1466034718608585893, 1763965992792908855],
    [17889884216162892970, 1862047440278627693, 6776982491142531567, 509030100633769199],
    [2103003211546756689, 16989693265036519231, 5592631242706587205, 3316448860073932229],
    [14267587468302372263, 15551214119910921431, 1748143708280577817, 2818329411509824215],
    [8371418337631746822, 2479463083406846324, 2745963572568990453, 3455516529983111618],
    [8773640117605679780, 11409336626565884526, 13218607955109781524, 3259395359695234712],
    [1867398081966820057, 15498020980268462972, 2176980497051842604, 416595447087801758],
    [10727109230389221295, 15208909630445345653, 2445084126672873772, 1659432196511814287],
    [1211264785873762708, 8417038417192455983, 2085634132347004337, 3376543962686382809],
    [1603800640161064346, 15401235416257058914, 11270830356259053140, 3428775859816867112],
    [15350739644632059820, 13709145574691118268, 17682417268334795086, 877253757227249059],
    [8479261945145134284, 6186993023576238094, 11860868693023138089, 1520903408141058004],
    [9583699059955313169, 11707815799878835627, 13263126790906001354, 3477814688420171027],
    [8755107235382540209, 4868240310712354688, 15227716031000452589, 119420019366040711],
    [15753736829744750621, 1636852136993116300, 18389311435867088189, 1076222053032887499],
    [7317671766966387907, 5563992298362809764, 15566026199130849090, 1938899992148278597],
    [3641020121927746604, 5845205056167083757, 1635032579823909617, 1068540519570289343],
    [17330668459665809052, 11395307506546642554, 17880470631032179157, 1719981507409459943],
    [14393436107671240735, 16015058223173859956, 5744992728056632088, 1334627802610068526],
    [1359585636367268821, 1799380000434693044, 15854517821072992154, 634796718553362015],
    [8188949748752256890, 13075508269402729780, 7906897875134295009, 532426915113644126],
    [16766417751100176715, 11013955864341859951, 10148098139022730973, 2621382323140380574],
    [802477084441381727, 11775283942717326535, 14307040970790081173, 2996271294845318001],
    [10317087447636177095, 1147970703052738234, 10822688466366957270, 2506486013110739834],
    [5979802724732478270, 18356980851928970118, 12973264983718536782, 2890237490238342299],
    [7794486987624981501, 16704518959305262373, 10611805564496401628, 1783502202877985592],
    [3933608272268479842, 10732076256183502320, 12859250786564056668, 69975664925211447],
    [15336448713657065354, 4348665321808133446, 11590159532641546536, 1705362788791823642],
    [10502124797251211499, 9662176637267571258, 15658734630264787331, 2959785733711467093],
    [5157182294668501500, 17330979098777687606, 2519764585936882356, 1363362860411467621],
    [6418518366425046024, 1794857873664369751, 16860499007690548517, 1395715084197514971],
    [1614210224697812842, 218150094316613358, 3927001519040639619, 3417023655515828705],
    [1914481617736640536, 511919406248050283, 17979011777104445694, 1392802613124864877],
    [49808133643033038, 17608444135468689775, 7055153334124412428, 3447540138703034796],
    [2349799587463200519, 10743350950049672038, 14735838565599559966, 3266607411463278112],
    [8545672072127978273, 15771774930753028005, 13554875934822766814, 2576431964162695574],
    [2949076617260579578, 12208639664545744392, 12528273020986505639, 572188505035562345],
    [13295018320223743452, 15061656613754045864, 15471636819466098726, 959573010701843250],
    [2103052643921809838, 10380126220052333534, 3142836095210948934, 2917702953231190381],
    [16329177714379511641, 11330830200083246031, 8003223644946054716, 1248371298144656134],
    [13132361756944052609, 14223136704286127265, 1712608880417053762, 2813632644058128176],
    [12449766818091875626, 14096560350959480817, 2509773908623880366, 656678342045009047],
    [7000692435742514362, 9185285248135376699, 14468699578289813052, 3323545836812131972],
    [1603228274497448152, 107174998099817058, 18388329117775750280, 454119085841286516],
    [6397113273042926377, 6117554445868682753, 7312787336195909406, 1791751326659986588],
    [14365970571969485139, 10924643229813793557, 12170208691108388853, 94849050830321084],
    [12215351287149912386, 6368437433782814417, 3655493008899560319, 1856037346690972505],
    [16667614848197056048, 8723483989757323841, 16025155100794455711, 3236727702655019878],
    [14130685229344114615, 8723541040664541916, 17497861676406765152, 2927044009043960804],
    [1051166726343287721, 1867778408476933268, 2671573991231465433, 1181163199903259414],
    [11622147000731242360, 11615433458295457440, 6109683175533339273, 2873740859887390180],
    [4675608330629005081, 18140277169106608122, 8322279888700222129, 282102583422244876],
    [11962688430111930534, 10081636427704183384, 12266839000160429711, 1192912320574681110],
    [3252148635222043606, 16940696766850217349, 3461394718991766991, 1406448473767340345],
    [7554036260464041383, 14026608866551556554, 15972755695443806085, 1706800198324196592],
    [11745536181569024926, 425967409217318853, 7688614748933728451, 3094734729006911691],
    [1368028602050053398, 11762488092772929893, 12597139462704124470, 330556938403645402],
    [14276029912176887556, 12184327218483410542, 15764860492656432251, 1919225004976673371],
    [8756518854158291982, 6802196238980107412, 17154190076768214425, 201483263023589225],
    [7368875265859789641, 7867314791758506609, 97820562643629826, 2671745830309433785],
    [18415803072779668902, 6814011405365079060, 17108277850015369761, 2593564511125807887],
    [11874390610130191878, 12470356159292096786, 18306695307056618507, 928676938589412153],
    [1287536752287730397, 17702915680366776762, 5933292676148912813, 1694665045759134920],
    [2584047232288747980, 5030417057872211486, 15729944338921990944, 1480266369335953108],
    [5717150194898153300, 791442044024805447, 4133267584301426313, 948053192773808164],
    [9592255641009035742, 1708740492083844302, 9817932547935662888, 701530795586772122],
    [6512229605566305524, 10614830246978931870, 17034470190816437688, 797125835752337052],
    [12968545857509966038, 8559908668966989269, 18108184555899926370, 1044781124675606870],
    [11463892798677359178, 9012682699334779875, 2916971134512731433, 394350387718525308],
    [18014969773508277983, 4610304878107641067, 14941794495937973974, 2147501666939903219],
    [15833950430283831041, 13721984883171549259, 25935472614344548, 1090819437583892712],
    [2832712352803293597, 11295786537429804445, 350888288388144464, 132944144642690526],
    [1520463201090491614, 8882072154306663573, 14210475409360535863, 577251535322097222],
];

const M_T14: [[u64; 4]; 196] = [
    [3742978512256958312, 18377972224748843950, 17457310946250825957, 1022501235348185803],
    [10772706036545129704, 9121195554705385440, 13168289016813858126, 1303910504909024644],
    [14783573911315019442, 2408903162806972250, 2649994808394687048, 2565357054855143312],
    [5401221990196700302, 16415302298365724857, 4968089492936004873, 265099537244810541],
    [13513496935722923573, 10698031192531012648, 9874914835364207850, 1304625656386403108],
    [18224601588083070013, 1616933919503528945, 5951419001681023450, 3218103332184322708],
    [8509112819189457204, 5557981246000165608, 10917491944977643201, 3213862996216465370],
    [1900108185655338761, 9697347212463623725, 9451478307252405877, 971941672564356173],
    [5046754503791416083, 15049185360648316185, 18424418843847001734, 2961487389474038783],
    [7227327568200983562, 8991948242951209109, 6582277249281408880, 123335840345515831],
    [9100977469907655197, 2606454428196058672, 4845734511238082512, 3320984421768811084],
    [15839981688133901104, 14593515657361133639, 8950508121510739832, 28575263827750056],
    [8375212826918077368, 2887072233674663724, 6304564821619394879, 1898745992555648803],
    [5101261322110357679, 14913570295000140791, 7046106705542616961, 1894634918089937913],
    [17342008059349371320, 9729613386941817054, 6880542190026416778, 1333749779391433144],
    [15285773757225587528, 2240952495386925189, 17900011636786548714, 2557544963651930043],
    [11622988745723840114, 16349501050837794140, 1371362591937521235, 378572063194437982],
    [2383793627692314549, 6081495978884634987, 35424915907899237, 1349949251239291249],
    [12152921995952734707, 7771880319554031534, 5886878331569938612, 3399871493985318716],
    [6806441770192822266, 16037816201079602177, 16014808869563287131, 2802194739388323117],
    [14349585586584077924, 16301122043133757671, 16712912109710491548, 2480350122575230927],
    [17383109873195785669, 8310585064473781710, 5035801668361665472, 2730045261709470005],
    [1176084190070481925, 519200320911053718, 4740640601365856847, 1090775874462312535],
    [13401925501569404441, 16504469828494398747, 13157559147178765066, 980579493844453795],
    [12884927199299148172, 6345908358505925818, 17631834333242035726, 3047367706347032714],
    [2661511269490170613, 1805975464021184937, 7209936122606269268, 2213932743607393979],
    [11180292543033378491, 5361446356358092593, 18225523589501678094, 2480236425329925604],
    [8444697039116541415, 4810788744235735914, 5481636467966035328, 776229238229321620],
    [1189125060807634039, 1164830120099361979, 10398060969066876950, 2521630040891481864],
    [14229561836179478433, 7070773924136310653, 5587302820070117599, 1731858253445505896],
    [15091261143021996059, 3081144766891498345, 9605776073362961005, 2025717429615376090],
    [3845220869099254591, 7121095707132477107, 13455140908538978822, 1985278871145202092],
    [13681332663063662251, 10050681094138303805, 9070593873359785173, 1257503671461332146],
    [12046741410038246071, 1947376346103744901, 14525210302168608457, 2204457047300941545],
    [17991471237489766760, 15457019827803627146, 15161987916796507026, 462385040856087531],
    [1468800245333376216, 9168952189368189503, 13147031084081271228, 2428420848122813490],
    [14991472882292595317, 13410955600429587865, 1348635733713556041, 2199704988866165879],
    [6649129329093168424, 12569441631909847678, 2062102456184903812, 530609634808663320],
    [10677914586861373118, 7327218819783518205, 15781307154418323532, 1453118004975312911],
    [788665764550639606, 16435783278157504850, 13044521995687673314, 1073097220504762038],
    [3236068792116303925, 1336349738470833623, 5275543621852990799, 1625367488937035276],
    [8447035567514458481, 17774440732329596077, 13974456039637122948, 876587364960572489],
    [12268769338729595105, 13495262960206088417, 3556026607099042620, 2651607880507099064],
    [9826050236299493272, 10429875778642584313, 13221061445054076060, 233286607681142007],
    [2808640270479621865, 4884188206756152555, 6693908009353920731, 1049053414873095721],
    [16721616927009218416, 16760110253230441528, 18434300143738315355, 764907046327904122],
    [8744744669086295252, 18200913538330904372, 7112865370446658623, 655092462455151630],
    [1636180406257272612, 5468626351282640204, 3268505647342173934, 3465150978927632990],
    [12038917102349204496, 15186957726346531677, 7529135985404319400, 867391947040227642],
    [11701543981702592655, 11620609925016307089, 13822262177475548328, 824616591283653136],
    [14713994376314387049, 14975365436140923609, 4956041748212059032, 1482661166722781814],
    [10213875859683001018, 16178359397811013429, 1999606803057097421, 2952637345192276313],
    [3364540284296214719, 861148841324950454, 16783821360425189059, 1006083179758457565],
    [3007438516184091645, 13458271656731029268, 15835032571563886016, 207112473451680626],
    [1311956587305853381, 15703991448747712549, 7438095385816655091, 807367611711759313],
    [7112219977910402224, 6354709313161387972, 9300853484160349347, 358020755719528891],
    [7813397693234181305, 16593159701053981990, 5958404944448303383, 3225650801117371817],
    [10523597691489777341, 16199780010562717542, 15940617204445296429, 2906167747834502646],
    [2340474092321046557, 7679279855991109379, 16331625551210178556, 800938213596337489],
    [13770852706977898566, 17529203187192132047, 8431797682416439065, 823791655162195485],
    [18368796022524192175, 18376129537891384862, 17856215573373756628, 2380797270509135769],
    [3645164061104702361, 8211552628691450606, 1304891401317328092, 2025261871552870970],
    [3446322880713432950, 2097624863573272999, 9202130903173026192, 1546082560879790698],
    [11349295337384473520, 5182522067910628100, 4809067104146195598, 2805003691859353113],
    [4935559167531707810, 5547513849276195360, 5842501597573806518, 404735125467170549],
    [10429618344544329331, 7128720136090562204, 3873103777465394325, 107586992563565217],
    [12287638836038197321, 14941860678744845297, 5987560160602299931, 3091704932015031155],
    [7811052730464252226, 15445105445553877366, 7660120208114267510, 1363062481078684380],
    [8164949328618675705, 6057269483559475287, 4586134055461088639, 1735527164979285839],
    [16774927071235777309, 12868543051911522490, 338742229083400546, 1798840666609911896],
    [15534668299842753301, 9509505896199742934, 4928348980557290027, 1292211922474016563],
    [13304510749643278338, 15230564747549378106, 3253862849020966464, 43738329316633431],
    [17286485791347172269, 12412556030488005150, 5611515886608890406, 719639996566365458],
    [284600022355381074, 17698459888177172746, 18410219140086750021, 119815155428465420],
    [3523215268677540175, 6229808409953347548, 17540064619347609525, 1854072430927198265],
    [14394869119346209806, 12412532427156289757, 894674431373583412, 55297198387964552],
    [2399205804135766857, 7232608042302535258, 8721455716627875087, 262997210610495111],
    [426853361260123415, 6104561526432463980, 4577490428339260699, 1403162356748269025],
    [13985501752300679655, 6562066767146027149, 11303308922775990059, 1613118166254181270],
    [10565076158811603913, 14664619886602703620, 7233030795290260105, 923419078853466859],
    [16132737427622765803, 12371518583406222389, 222493804469433199, 2319555826889560157],
    [17515258037165762950, 18115491346634776806, 9389430038531178901, 816068869838096111],
    [6618129871232119945, 14018614433916818210, 7606485349046918072, 2894219579646868311],
    [8662029960304268246, 17813585746832669587, 688080288725038786, 1678745419639250255],
    [8168246645432304102, 15074212575175158486, 1861563134736548491, 1772986593236396826],
    [10717305406220884818, 12911375042319772524, 14855658764331645504, 2953577342685014651],
    [10028545302366438929, 17700222141700381047, 13840146754061776175, 419662301426291242],
    [4192896396849261252, 364223728153151341, 5224380465338478261, 162052773969117773],
    [14876122403539591601, 8332357885251559374, 12124708413231022986, 2790238014499820983],
    [8624576565748854308, 9506738090328056134, 9628532721856582123, 1835039584149127305],
    [693470710874746943, 852945057961966938, 16555095593346611056, 866730369722695545],
    [13392452770601247658, 5206564643124549863, 5521651153913283675, 1457356380996198963],
    [16629691791731271189, 11560061021606368562, 16942325591698987138, 431089361219344600],
    [10172269670889400797, 5494747585561492971, 17356276898551696319, 2829844248484261659],
    [8288241088877172525, 4758600237012066769, 17910833456913660854, 1344061561292454170],
    [1150141137616024318, 5706076729063860146, 12968159040680206829, 659319618206594742],
    [16750756650857873241, 720945735666251984, 8162214059277149772, 1480190425278354011],
    [11194373194346177813, 10642626798084828320, 3108734804480203217, 2269698784054333418],
    [11480517180819519242, 13840781189185973252, 1935696717124256566, 1922211602353761390],
    [1313662118185415730, 17821501736081522285, 1458498034524787559, 3122897677469104699],
    [7836209888771621500, 15354901818686823673, 11624307559066344959, 897645653964242978],
    [7370253666385597653, 11216002437386649713, 6545858834533960461, 803452796831092930],
    [192276116887487862, 15537118125815977599, 9646254124906006211, 1673516062914883835],
    [3429450883078060541, 9322404735390760416, 8745492425562035606, 2353594972298298241],
    [5130055748196255498, 17986282595099893239, 3910015443335852324, 2412420873315558844],
    [13952888564028406691, 18355192273213814409, 11280725036653934006, 1481061074955542527],
    [3613049416051450705, 8264156876526174437, 12954569459290238272, 1067261486356842464],
    [3743696100863990400, 3150271838412272947, 205984806280530345, 1397709097368187408],
    [16031395007728398098, 2543663797316176466, 16119502598707887855, 2286264261618705169],
    [1503376359362497934, 16682760107151320611, 17116919658092419328, 772670759932586809],
    [5062455348871447544, 4854894695823065132, 3469128585228416712, 639858791969736373],
    [14305228521322311161, 12848550544702667394, 17146967304480907985, 142428955463699867],
    [613375372291381859, 7939479326354869801, 4624410401715885679, 972248302986642438],
    [12650756668111633455, 15229627546486696691, 4865409181049371105, 1751434218490974081],
    [12146702009854852993, 5900136193904422796, 16044692577471939335, 1800848610320056686],
    [645584782769053353, 2803052635500410546, 2683440392978642337, 334799883536292773],
    [9097941173277441475, 6859725740271542567, 6780795077005278860, 2131485236082606330],
    [10672974543033938257, 16002854537380933474, 7266467398619873231, 2325012607709569934],
    [11138664666341287199, 16559088300189249390, 15348005453095281848, 1696266062203262604],
    [11274023304489633846, 13169836555269167641, 13314058720940205138, 2697115575583400013],
    [12640039492740405167, 13484730224153570018, 18210307500349516951, 2735458772344411930],
    [7635719329544631911, 10331286315677726187, 9030208899455178170, 213940851325185228],
    [1026127775626104115, 9123218242070382574, 7807751180696141141, 56568164532790000],
    [17782551408454361827, 4499806180298017182, 7005206692848873882, 290435470992076725],
    [11378842430300035357, 16142130446112958175, 331625186746504627, 1282263517549133883],
    [14969072614227524340, 4369791558441588319, 16443855070984304038, 3322575902750537894],
    [12225199323958877152, 8632883352846884450, 10741166532020958697, 546802778369764041],
    [11511124869278877268, 7791089499291731906, 3417023525904661973, 1154265025049180113],
    [6795884656148944104, 3178557744099128890, 18095488452612413627, 537433892944565405],
    [14442599805501716664, 6317884079911233813, 12532107216692776845, 2002947891726611746],
    [6927383505933731695, 12085811726358232785, 5751672212514823788, 1973034300475662880],
    [11135830867516187321, 6072241545298253172, 4328428204232915670, 3259804169143642052],
    [13181295529026487931, 2200941628319877589, 4492535235216959740, 1055070614523409783],
    [8791625310789695389, 378601517271901944, 10171722353605264939, 2486027736924807844],
    [15587262254234733425, 16765787078176373365, 15769793868676974895, 2359446672936255673],
    [4265532794331376328, 17833343125878420268, 2137832143440626644, 2447944252917668704],
    [15618919982180923883, 2819152701982966882, 3161072635509147384, 989957653934273411],
    [6788451843916803364, 17413961740360388714, 18309467875042711911, 3455874705241480052],
    [5338693537388909527, 17868943124210485682, 16564147015034551083, 1267788060632950505],
    [7897972537498148406, 11479274264403373748, 16631166452227890319, 503223198233831699],
    [9279355317816210524, 16517846402364701571, 15264432434312557390, 2998146683689752776],
    [2542754822209997957, 2844729820893907029, 4850054833713541549, 763142873076198665],
    [478349738575621054, 5871655842769890254, 12603670424330366941, 3308437519542365127],
    [6180834713934748518, 16654016027358411463, 14639034339314438874, 3361576100409659455],
    [2256202534164260813, 3636271030412132258, 9912786269007317917, 1405332731747249259],
    [3625284091541339026, 13516405003662195095, 8771097482958431687, 1898013207049394385],
    [2775670742342313386, 16175685669673285495, 17210226357544456244, 2052725692736368916],
    [16946489747222888727, 2014257327037245467, 6043077312850579282, 704987093693448961],
    [8073243781127999136, 10376995061376646810, 3045749622182444417, 2985669519932007017],
    [4663630143405502645, 1495484293212513718, 7613338534882448138, 109092789381636870],
    [12741679056166700139, 15128248700564646088, 2663861287328894936, 2146581364067779779],
    [10229932360500709666, 17915174645671026906, 3197456559706968768, 493827543291650840],
    [3779018605393871760, 4000213127504914337, 7247600449578557430, 892254208601287132],
    [7152381880646789336, 7180064720500369242, 910612338636343107, 3237076470302030954],
    [9739630066181871673, 13770681434655609394, 17085720622602903312, 2373712460871551401],
    [12347083509720827673, 7588647224705277725, 13134968361733557748, 1320813393652466581],
    [15488634495260415703, 2693818700036951794, 10931263322846020754, 1348143881571925977],
    [13179565402184800495, 706986884216018962, 9738596409916809167, 3482495112694606956],
    [17938221032869221901, 4918623738325132781, 8777149472264612464, 2382616434119573942],
    [18438305085415183878, 2044311109536060597, 15932509400827919469, 647748240091593348],
    [5082046721939214352, 18167055196808979306, 18431877631240612853, 2632318374201682806],
    [3449928094776685863, 11532983733339390784, 16338902204772209931, 769386294046220771],
    [3820011259451392851, 1925233413058198419, 12016187432625950568, 445881075123466618],
    [11076647222206651233, 7590263299542559820, 13945857060215139535, 2167673902688441945],
    [18288237424848066154, 18078807660933331530, 13330701078217444155, 2962200049328720150],
    [9284865438074949280, 11329681858705132227, 8255643709107800871, 48047001928570156],
    [6036928977326420043, 5735495453288792684, 6197149759336936177, 2201950435492472574],
    [15570622667764857301, 16207980331255450029, 11744764507680753116, 2841250348873107942],
    [13041929568243275639, 9805253086712675251, 17962597139357110640, 738659159721097426],
    [6438142840578043622, 15248867635365318666, 3045014385304943183, 3100331232269959690],
    [2785331030911951233, 5836849779820246927, 16763882451643664911, 3431612068198048855],
    [6476830668949833383, 8941747750897677960, 15259474748267090056, 2334891982530694008],
    [11793715061193654580, 427235637929596530, 12217702240068345205, 54732387639291768],
    [13402639120677357205, 7504406794157160857, 18207125732196225069, 1887711874476104041],
    [4024539906202454725, 1436458491402809682, 5965608171143416666, 3174118426996281713],
    [5240563467146492917, 15300580963708599173, 16435911231089147590, 2734828694108597589],
    [2957976694496945346, 17083980461311322770, 3754901490707829754, 34129850322525893],
    [16537566982189127899, 12298519107807292628, 14518280326124064337, 3090010982858587266],
    [2567958258057031341, 905059219650496050, 6519917260878103334, 2060392944180277216],
    [14601557769993673854, 14181850754881176933, 2918744080073298280, 2842756310240143724],
    [15646414698938420666, 4142604183656942331, 6359980536787855892, 1636525356787818903],
    [17232165347550763093, 581352787576806213, 11612223050131979673, 897828626385401519],
    [2507269181936647633, 6100697664618457880, 4798351104334591892, 316485983385111542],
    [11903573396119042307, 16589503065794237965, 13673373228524267351, 172370834985493435],
    [10018703677895679468, 9447630730666200068, 4510237182752772466, 680411268056235243],
    [17363316838457135361, 7525628877757160746, 7817958715234200468, 1502734451621132505],
    [10943359579226977813, 12408725713901254939, 3950404357300045279, 1341464073870027309],
    [18437329675557947853, 5167056859161712889, 15523746105646601948, 1191093158457036869],
    [16490848097388918739, 9038524294016327203, 4171525704325169351, 1115836337990987168],
    [10005862467815680923, 11665894723785674384, 4440557123186824388, 1206252375448979515],
    [5141754489445660179, 17975684981037712190, 2666404770964008989, 652354740341265693],
    [17504186173571203926, 4625491767552319677, 2848852675173841895, 2652251253263982530],
    [12886323335579316879, 4709974549096666891, 16964338715049018760, 2053024392088022907],
    [17780118358543345027, 7672633631590437281, 10620543710782633900, 1227897773165715614],
    [6500186634061250297, 15763560727744873681, 1533971336261240220, 1405736388953010615],
    [3683351390210929180, 2534527426612346849, 16668896078954008971, 602981011519384759],
];

/// The shipped additive-constant data of width 14.
pub closed spec fn c14_data() -> Seq<[u64; 4]> {
    C_T14@
}

/// The shipped mixing-matrix data of width 14, row-major.
pub closed spec fn m14_data() -> Seq<[u64; 4]> {
    M_T14@
}

/// The additive round constants of width 14, pinned to the shipped data.
pub fn c_t14() -> (v: Vec<[u64; 4]>)
    ensures
        v@ == c14_data(),
        v@.len() == 1092,
{
    slice_to_vec(C_T14.as_slice())
}

/// The mixing matrix of width 14, pinned to the shipped data.
pub fn m_t14() -> (v: Vec<[u64; 4]>)
    ensures
        v@ == m14_data(),
        v@.len() == 196,
{
    slice_to_vec(M_T14.as_slice())
}

} // verus!
